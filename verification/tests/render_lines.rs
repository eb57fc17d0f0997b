use term_cat::newtype::MessageBody;
use term_cat::tui::render::{
    EntryStyle, RenderedLine, footer_text, history_lines, input_title, scroll_top, split_lines,
};
use term_cat::tui::{HistoryEntry, Mode};

fn view(l: &RenderedLine) -> (String, bool, String, EntryStyle) {
    (l.prefix.clone(), l.prefix_styled, l.text.clone(), l.style)
}

#[test]
fn split_lines_cuts_at_every_line_feed() {
    assert_eq!(split_lines("a\nb"), vec!["a".to_owned(), "b".to_owned()]);
    assert_eq!(split_lines(""), vec![String::new()]);
    assert_eq!(split_lines("a\n"), vec!["a".to_owned(), String::new()]);
    assert_eq!(split_lines("\n\n"), vec![String::new(), String::new(), String::new()]);
    assert_eq!(split_lines("no breaks"), vec!["no breaks".to_owned()]);
}

#[test]
fn entries_render_with_prefix_then_blank_gutter() {
    let entries = vec![
        HistoryEntry::User(MessageBody::new("hi\nthere")),
        HistoryEntry::AssistantComplete(MessageBody::new("ok")),
        HistoryEntry::ToolInvoked(MessageBody::new("t")),
        HistoryEntry::Error(MessageBody::new("e")),
        HistoryEntry::AssistantPartial(MessageBody::new("p")),
    ];
    let lines: Vec<_> = history_lines(&entries).iter().map(view).collect();
    assert_eq!(
        lines,
        vec![
            ("you  ".to_owned(), true, "hi".to_owned(), EntryStyle::Bold),
            ("     ".to_owned(), false, "there".to_owned(), EntryStyle::Bold),
            ("bot  ".to_owned(), true, "ok".to_owned(), EntryStyle::Plain),
            ("tool ".to_owned(), true, "t".to_owned(), EntryStyle::Dim),
            ("err  ".to_owned(), true, "e".to_owned(), EntryStyle::Reversed),
            ("bot  ".to_owned(), true, "p".to_owned(), EntryStyle::Plain),
        ]
    );
}

#[test]
fn scroll_follows_the_bottom_and_the_user_offset() {
    assert_eq!(scroll_top(10, 4, 0), 6);
    assert_eq!(scroll_top(10, 4, 2), 4);
    assert_eq!(scroll_top(10, 4, 100), 0);
    assert_eq!(scroll_top(3, 4, 0), 0);
    assert_eq!(scroll_top(100_000, 0, 0), u16::MAX);
}

#[test]
fn titles_and_footers_follow_the_mode() {
    assert_eq!(input_title(Mode::Idle), " input ");
    assert_eq!(input_title(Mode::Streaming), " input (streaming...) ");
    assert_eq!(input_title(Mode::Quitting), " input (quitting) ");
    assert_eq!(
        footer_text(Mode::Idle),
        "Enter=send  Shift+Enter=newline  Up/Down=scroll  Ctrl+C=quit"
    );
    assert_eq!(footer_text(Mode::Streaming), "Esc=cancel  Up/Down=scroll  (streaming...)");
    assert_eq!(footer_text(Mode::Quitting), "(quitting)");
}
