use term_cat::tui::InputBuffer;

fn typed(text: &str) -> InputBuffer {
    let mut b = InputBuffer::empty();
    for c in text.chars() {
        b = if c == '\n' { b.insert_newline() } else { b.insert_char(c) };
    }
    b
}

fn lines_of(b: &InputBuffer) -> Vec<String> {
    b.lines().to_vec()
}

#[test]
fn empty_buffer_has_one_empty_line() {
    let b = InputBuffer::empty();
    assert_eq!(lines_of(&b), vec![String::new()]);
    assert_eq!(b.cursor(), (0, 0));
    assert!(b.is_empty());
}

#[test]
fn typing_and_newline_split_lines() {
    let b = typed("ab\ncd");
    assert_eq!(lines_of(&b), vec!["ab".to_owned(), "cd".to_owned()]);
    assert_eq!(b.cursor(), (1, 2));
    assert!(!b.is_empty());
}

#[test]
fn insert_then_backspace_restores_the_buffer() {
    let b = typed("hello");
    let before = lines_of(&b);
    let cursor = b.cursor();
    let b = b.insert_char('!').backspace();
    assert_eq!(lines_of(&b), before);
    assert_eq!(b.cursor(), cursor);
}

#[test]
fn newline_then_backspace_joins_back() {
    let b = typed("abc");
    let b = b.insert_newline();
    assert_eq!(lines_of(&b), vec!["abc".to_owned(), String::new()]);
    let b = b.backspace();
    assert_eq!(lines_of(&b), vec!["abc".to_owned()]);
    assert_eq!(b.cursor(), (0, 3));
}

#[test]
fn backspace_at_start_is_noop() {
    let b = InputBuffer::empty().backspace();
    assert_eq!(lines_of(&b), vec![String::new()]);
    assert_eq!(b.cursor(), (0, 0));
}

#[test]
fn delete_word_removes_previous_word_and_spaces() {
    let b = typed("hello big  world").delete_word();
    assert_eq!(lines_of(&b), vec!["hello big  ".to_owned()]);
    let b = b.delete_word();
    assert_eq!(lines_of(&b), vec!["hello ".to_owned()]);
    assert_eq!(b.cursor(), (0, 6));
}

#[test]
fn take_joins_lines_and_resets() {
    let (body, b) = typed("one\ntwo\n").take();
    assert_eq!(body.as_str(), "one\ntwo\n");
    assert_eq!(lines_of(&b), vec![String::new()]);
    assert_eq!(b.cursor(), (0, 0));
}

#[test]
fn multibyte_characters_count_as_one_column() {
    let b = typed("héllo");
    assert_eq!(b.cursor(), (0, 5));
    let b = b.backspace();
    assert_eq!(lines_of(&b), vec!["héll".to_owned()]);
}

#[test]
fn delete_word_stops_at_unicode_whitespace() {
    let b = typed("alpha\u{3000}beta").delete_word();
    assert_eq!(lines_of(&b), vec!["alpha\u{3000}".to_owned()]);
    let b = typed("x\ty").delete_word();
    assert_eq!(lines_of(&b), vec!["x\t".to_owned()]);
}
