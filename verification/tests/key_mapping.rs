use term_cat::tui::key::{MOD_CONTROL, MOD_NONE, MOD_SHIFT};
use term_cat::tui::{InputEvent, KeyAction, KeyCode, KeyPress, lift};

fn k(code: KeyCode, modifiers: u8) -> InputEvent {
    InputEvent::Key(KeyPress { code, modifiers })
}

fn check(event: &InputEvent, expected: KeyAction, label: &str) {
    assert_eq!(lift(event), expected, "{label}");
}

#[test]
fn enter_no_modifiers_is_send() {
    check(&k(KeyCode::Enter, MOD_NONE), KeyAction::Send, "Enter");
}

#[test]
fn shift_enter_is_newline() {
    check(&k(KeyCode::Enter, MOD_SHIFT), KeyAction::NewLine, "Shift+Enter");
}

#[test]
fn plain_char_is_char() {
    check(&k(KeyCode::Char('a'), MOD_NONE), KeyAction::Char('a'), "Char(a)");
}

#[test]
fn shifted_char_is_char() {
    check(&k(KeyCode::Char('A'), MOD_SHIFT), KeyAction::Char('A'), "Shift+Char(A)");
}

#[test]
fn ctrl_c_is_quit() {
    check(&k(KeyCode::Char('c'), MOD_CONTROL), KeyAction::Quit, "Ctrl+C");
}

#[test]
fn ctrl_d_is_quit() {
    check(&k(KeyCode::Char('d'), MOD_CONTROL), KeyAction::Quit, "Ctrl+D");
}

#[test]
fn ctrl_w_is_delete_word() {
    check(&k(KeyCode::Char('w'), MOD_CONTROL), KeyAction::DeleteWord, "Ctrl+W");
}

#[test]
fn other_ctrl_char_is_noop() {
    check(&k(KeyCode::Char('x'), MOD_CONTROL), KeyAction::NoOp, "Ctrl+X");
}

#[test]
fn backspace_no_modifiers_is_backspace() {
    check(&k(KeyCode::Backspace, MOD_NONE), KeyAction::Backspace, "Backspace");
}

#[test]
fn ctrl_backspace_is_noop() {
    check(&k(KeyCode::Backspace, MOD_CONTROL), KeyAction::NoOp, "Ctrl+Backspace");
}

#[test]
fn esc_no_modifiers_is_cancel() {
    check(&k(KeyCode::Esc, MOD_NONE), KeyAction::Cancel, "Esc");
}

#[test]
fn up_is_up() {
    check(&k(KeyCode::Up, MOD_NONE), KeyAction::Up, "Up");
}

#[test]
fn down_is_down() {
    check(&k(KeyCode::Down, MOD_NONE), KeyAction::Down, "Down");
}

#[test]
fn page_up_is_page_up() {
    check(&k(KeyCode::PageUp, MOD_NONE), KeyAction::PageUp, "PageUp");
}

#[test]
fn page_down_is_page_down() {
    check(&k(KeyCode::PageDown, MOD_NONE), KeyAction::PageDown, "PageDown");
}

#[test]
fn left_arrow_is_noop() {
    check(&k(KeyCode::Left, MOD_NONE), KeyAction::NoOp, "Left");
}

#[test]
fn home_is_noop() {
    check(&k(KeyCode::Home, MOD_NONE), KeyAction::NoOp, "Home");
}

#[test]
fn function_key_is_noop() {
    check(&k(KeyCode::F(5), MOD_NONE), KeyAction::NoOp, "F5");
}

#[test]
fn caps_lock_is_noop() {
    check(&k(KeyCode::CapsLock, MOD_NONE), KeyAction::NoOp, "CapsLock");
}

#[test]
fn media_key_is_noop() {
    check(&k(KeyCode::Media, MOD_NONE), KeyAction::NoOp, "Media(Play)");
}

#[test]
fn modifier_key_is_noop() {
    check(&k(KeyCode::Modifier, MOD_NONE), KeyAction::NoOp, "Modifier(LeftShift)");
}

#[test]
fn ctrl_enter_is_noop() {
    check(&k(KeyCode::Enter, MOD_CONTROL), KeyAction::NoOp, "Ctrl+Enter");
}

#[test]
fn mouse_event_is_noop() {
    assert_eq!(lift(&InputEvent::Mouse), KeyAction::NoOp, "Mouse(Down)");
}

#[test]
fn resize_event_is_noop() {
    assert_eq!(lift(&InputEvent::Resize(80, 24)), KeyAction::NoOp, "Resize(80,24)");
}

#[test]
fn focus_gained_is_noop() {
    assert_eq!(lift(&InputEvent::FocusGained), KeyAction::NoOp, "FocusGained");
}

#[test]
fn focus_lost_is_noop() {
    assert_eq!(lift(&InputEvent::FocusLost), KeyAction::NoOp, "FocusLost");
}

#[test]
fn paste_event_is_noop() {
    assert_eq!(lift(&InputEvent::Paste), KeyAction::NoOp, "Paste");
}

#[test]
fn alt_char_is_noop() {
    check(&k(KeyCode::Char('a'), 4), KeyAction::NoOp, "Alt+Char(a)");
}

#[test]
fn ctrl_shift_c_is_noop() {
    check(&k(KeyCode::Char('c'), MOD_CONTROL | MOD_SHIFT), KeyAction::NoOp, "Ctrl+Shift+C");
}

#[test]
fn shift_up_is_noop() {
    check(&k(KeyCode::Up, MOD_SHIFT), KeyAction::NoOp, "Shift+Up");
}
