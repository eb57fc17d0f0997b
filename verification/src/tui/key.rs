//! Keyboard actions, and the mapping from terminal input events to them.
//! The terminal's events are given to the library as `InputEvent`, which
//! holds what the mapping reads: the key code and the modifier bits.

use vstd::prelude::*;

verus! {

/// All keyboard actions the application reacts to.  Unmapped input lifts to
/// `NoOp`.
#[derive(Debug, Clone, Copy, PartialEq, Eq, Structural)]
pub enum KeyAction {
    /// Submit the current input.
    Send,
    /// Insert a newline into the input buffer.
    NewLine,
    /// Delete the previous character from the input buffer.
    Backspace,
    /// Delete the previous word from the input buffer.
    DeleteWord,
    /// Insert a literal character into the input buffer.
    Char(char),
    /// Scroll history one line up.
    Up,
    /// Scroll history one line down.
    Down,
    /// Scroll history one page up.
    PageUp,
    /// Scroll history one page down.
    PageDown,
    /// Cancel an in-flight stream (Esc).
    Cancel,
    /// Quit the application (Ctrl+C / Ctrl+D).
    Quit,
    /// Recognized event with no application meaning.
    NoOp,
}

/// The key of a key event.
#[derive(Debug, Clone, Copy, PartialEq, Eq, Structural)]
pub enum KeyCode {
    Backspace,
    Enter,
    Left,
    Right,
    Up,
    Down,
    Home,
    End,
    PageUp,
    PageDown,
    Tab,
    BackTab,
    Delete,
    Insert,
    F(u8),
    Char(char),
    Null,
    Esc,
    CapsLock,
    ScrollLock,
    NumLock,
    PrintScreen,
    Pause,
    Menu,
    KeypadBegin,
    Media,
    Modifier,
}

/// No modifier held.
pub const MOD_NONE: u8 = 0u8;

/// The Shift modifier bit.
pub const MOD_SHIFT: u8 = 1u8;

/// The Control modifier bit.
pub const MOD_CONTROL: u8 = 2u8;

/// One key event: the key and the set of modifier bits held with it.
#[derive(Debug, Clone, Copy, PartialEq, Eq, Structural)]
pub struct KeyPress {
    pub code: KeyCode,
    pub modifiers: u8,
}

/// A terminal input event.
#[derive(Debug, Clone, Copy, PartialEq, Eq, Structural)]
pub enum InputEvent {
    Key(KeyPress),
    FocusGained,
    FocusLost,
    Mouse,
    Paste,
    Resize(u16, u16),
}

/// The action an input event means.  Only a key with no modifier, with Shift
/// alone (Enter, characters) or with Control alone (c, d, w) means anything.
pub open spec fn action_of(event: InputEvent) -> KeyAction {
    match event {
        InputEvent::Key(k) => {
            let m = k.modifiers;
            match k.code {
                KeyCode::Enter => if m == MOD_NONE {
                    KeyAction::Send
                } else if m == MOD_SHIFT {
                    KeyAction::NewLine
                } else {
                    KeyAction::NoOp
                },
                KeyCode::Char(c) => if m == MOD_NONE || m == MOD_SHIFT {
                    KeyAction::Char(c)
                } else if m == MOD_CONTROL && (c == 'c' || c == 'd') {
                    KeyAction::Quit
                } else if m == MOD_CONTROL && c == 'w' {
                    KeyAction::DeleteWord
                } else {
                    KeyAction::NoOp
                },
                KeyCode::Backspace => if m == MOD_NONE { KeyAction::Backspace } else { KeyAction::NoOp },
                KeyCode::Esc => if m == MOD_NONE { KeyAction::Cancel } else { KeyAction::NoOp },
                KeyCode::Up => if m == MOD_NONE { KeyAction::Up } else { KeyAction::NoOp },
                KeyCode::Down => if m == MOD_NONE { KeyAction::Down } else { KeyAction::NoOp },
                KeyCode::PageUp => if m == MOD_NONE { KeyAction::PageUp } else { KeyAction::NoOp },
                KeyCode::PageDown => if m == MOD_NONE { KeyAction::PageDown } else { KeyAction::NoOp },
                _ => KeyAction::NoOp,
            }
        },
        _ => KeyAction::NoOp,
    }
}

/// A key press with this code and modifier bits.
pub open spec fn key_event(code: KeyCode, modifiers: u8) -> InputEvent {
    InputEvent::Key(KeyPress { code, modifiers })
}

/// Every character can be typed, alone or with Shift (capitals and shifted
/// punctuation alike): it inserts itself.
pub proof fn lemma_typed_chars_insert_themselves(c: char, m: u8)
    requires
        m == MOD_NONE || m == MOD_SHIFT,
    ensures
        action_of(key_event(KeyCode::Char(c), m)) == KeyAction::Char(c),
{
}

/// The key bindings: Enter sends and Shift+Enter breaks the line; Ctrl+C and
/// Ctrl+D quit; Ctrl+W deletes a word; Backspace, Esc, the arrows and the
/// page keys without modifiers do what their names say; any other Control
/// character does nothing.
pub proof fn lemma_key_bindings(c: char)
    ensures
        action_of(key_event(KeyCode::Enter, MOD_NONE)) == KeyAction::Send,
        action_of(key_event(KeyCode::Enter, MOD_SHIFT)) == KeyAction::NewLine,
        action_of(key_event(KeyCode::Enter, MOD_CONTROL)) == KeyAction::NoOp,
        action_of(key_event(KeyCode::Char('c'), MOD_CONTROL)) == KeyAction::Quit,
        action_of(key_event(KeyCode::Char('d'), MOD_CONTROL)) == KeyAction::Quit,
        action_of(key_event(KeyCode::Char('w'), MOD_CONTROL)) == KeyAction::DeleteWord,
        c != 'c' && c != 'd' && c != 'w' ==> action_of(key_event(KeyCode::Char(c), MOD_CONTROL)) == KeyAction::NoOp,
        action_of(key_event(KeyCode::Backspace, MOD_NONE)) == KeyAction::Backspace,
        action_of(key_event(KeyCode::Esc, MOD_NONE)) == KeyAction::Cancel,
        action_of(key_event(KeyCode::Up, MOD_NONE)) == KeyAction::Up,
        action_of(key_event(KeyCode::Down, MOD_NONE)) == KeyAction::Down,
        action_of(key_event(KeyCode::PageUp, MOD_NONE)) == KeyAction::PageUp,
        action_of(key_event(KeyCode::PageDown, MOD_NONE)) == KeyAction::PageDown,
{
}

/// Lift a terminal input event into a `KeyAction`.
pub fn lift(event: &InputEvent) -> (r: KeyAction)
    ensures
        r == action_of(*event),
{
    match event {
        InputEvent::Key(k) => {
            let m = k.modifiers;
            match k.code {
                KeyCode::Enter => if m == MOD_NONE {
                    KeyAction::Send
                } else if m == MOD_SHIFT {
                    KeyAction::NewLine
                } else {
                    KeyAction::NoOp
                },
                KeyCode::Char(c) => if m == MOD_NONE || m == MOD_SHIFT {
                    KeyAction::Char(c)
                } else if m == MOD_CONTROL && (c == 'c' || c == 'd') {
                    KeyAction::Quit
                } else if m == MOD_CONTROL && c == 'w' {
                    KeyAction::DeleteWord
                } else {
                    KeyAction::NoOp
                },
                KeyCode::Backspace => if m == MOD_NONE { KeyAction::Backspace } else { KeyAction::NoOp },
                KeyCode::Esc => if m == MOD_NONE { KeyAction::Cancel } else { KeyAction::NoOp },
                KeyCode::Up => if m == MOD_NONE { KeyAction::Up } else { KeyAction::NoOp },
                KeyCode::Down => if m == MOD_NONE { KeyAction::Down } else { KeyAction::NoOp },
                KeyCode::PageUp => if m == MOD_NONE { KeyAction::PageUp } else { KeyAction::NoOp },
                KeyCode::PageDown => if m == MOD_NONE { KeyAction::PageDown } else { KeyAction::NoOp },
                _ => KeyAction::NoOp,
            }
        },
        _ => KeyAction::NoOp,
    }
}

/// Every non-key event, and every key other than Enter, a character,
/// Backspace, Esc and the four scroll keys, means nothing.
pub proof fn lemma_other_input_is_noop(event: InputEvent)
    requires
        !(event is Key) || !(match event->Key_0.code {
            KeyCode::Enter | KeyCode::Char(_) | KeyCode::Backspace | KeyCode::Esc | KeyCode::Up
            | KeyCode::Down | KeyCode::PageUp | KeyCode::PageDown => true,
            _ => false,
        }),
    ensures
        action_of(event) == KeyAction::NoOp,
{
}

} // verus!
