use term_cat::agent::AgentEvent;
use term_cat::newtype::{MessageBody, ToolName};
use term_cat::tui::frame::{apply_agent_events, frame_key, settle_canceller};
use term_cat::tui::key::{MOD_CONTROL, MOD_NONE};
use term_cat::tui::{AppEffect, AppState, HistoryEntry, InputEvent, KeyAction, KeyCode, KeyPress, Mode};
use term_cat::bridge::cancel::{cancel_channel, Canceller};

fn press(state: AppState, action: KeyAction) -> (AppState, Option<AppEffect>) {
    assert!(state.accepts_key(action));
    state.apply_key(action)
}

fn type_text(mut state: AppState, text: &str) -> AppState {
    for c in text.chars() {
        state = press(state, KeyAction::Char(c)).0;
    }
    state
}

fn rows(state: &AppState) -> Vec<String> {
    state
        .history()
        .entries()
        .iter()
        .map(|e| match e {
            HistoryEntry::User(b) => format!("user:{}", b.as_str()),
            HistoryEntry::AssistantPartial(b) => format!("partial:{}", b.as_str()),
            HistoryEntry::AssistantComplete(b) => format!("bot:{}", b.as_str()),
            HistoryEntry::ToolInvoked(b) => format!("invoked:{}", b.as_str()),
            HistoryEntry::ToolReturned(b) => format!("returned:{}", b.as_str()),
            HistoryEntry::Error(b) => format!("err:{}", b.as_str()),
        })
        .collect()
}

#[test]
fn initial_state_is_idle_and_empty() {
    let s = AppState::initial();
    assert_eq!(s.mode(), Mode::Idle);
    assert!(!s.is_quit());
    assert!(s.history().entries().is_empty());
    assert!(s.input().is_empty());
}

#[test]
fn send_records_the_turn_and_starts_streaming() {
    let s = type_text(AppState::initial(), "hi there");
    let (s, effect) = press(s, KeyAction::Send);
    assert_eq!(effect, Some(AppEffect::SendInput));
    assert_eq!(s.mode(), Mode::Streaming);
    assert_eq!(rows(&s), vec!["user:hi there".to_owned()]);
    assert!(s.input().is_empty());
    let (pending, s) = s.take_pending_send();
    assert_eq!(pending.map(|b| b.as_str().to_owned()), Some("hi there".to_owned()));
    let (again, _) = s.take_pending_send();
    assert!(again.is_none());
}

#[test]
fn send_with_blank_input_does_nothing() {
    let (s, effect) = press(AppState::initial(), KeyAction::Send);
    assert_eq!(effect, None);
    assert_eq!(s.mode(), Mode::Idle);
    assert!(s.history().entries().is_empty());
}

#[test]
fn typing_is_ignored_while_streaming() {
    let s = type_text(AppState::initial(), "q");
    let (s, _) = press(s, KeyAction::Send);
    let (s, effect) = press(s, KeyAction::Char('x'));
    assert_eq!(effect, None);
    assert!(s.input().is_empty());
}

#[test]
fn esc_while_streaming_completes_the_turn_and_cancels() {
    let s = type_text(AppState::initial(), "q");
    let (s, _) = press(s, KeyAction::Send);
    let s = s.apply_agent_event(AgentEvent::AssistantToken(MessageBody::new("partial answer")));
    let (s, effect) = press(s, KeyAction::Cancel);
    assert_eq!(effect, Some(AppEffect::SignalCancel));
    assert_eq!(s.mode(), Mode::Idle);
    assert_eq!(rows(&s), vec!["user:q".to_owned(), "bot:partial answer".to_owned()]);
}

#[test]
fn quit_is_final() {
    let (s, effect) = press(AppState::initial(), KeyAction::Quit);
    assert_eq!(effect, None);
    assert!(s.is_quit());
    let (s, effect) = press(s, KeyAction::Char('a'));
    assert_eq!(effect, None);
    assert!(s.is_quit());
    assert!(s.input().is_empty());
}

#[test]
fn quit_while_streaming_cancels() {
    let s = type_text(AppState::initial(), "q");
    let (s, _) = press(s, KeyAction::Send);
    let (s, effect) = press(s, KeyAction::Quit);
    assert_eq!(effect, Some(AppEffect::SignalCancel));
    assert_eq!(s.mode(), Mode::Quitting);
}

#[test]
fn agent_events_drive_the_turn() {
    let s = type_text(AppState::initial(), "q");
    let (s, _) = press(s, KeyAction::Send);
    let args: serde_json::Value = serde_json::from_str("{\"message\":\"hi\"}").expect("json");
    let s = apply_agent_events(
        s,
        vec![
            AgentEvent::AssistantToken(MessageBody::new("Hel")),
            AgentEvent::AssistantToken(MessageBody::new("lo")),
            AgentEvent::ToolInvoked { name: ToolName::new("echo"), args: args.clone() },
            AgentEvent::ToolReturned { name: ToolName::new("echo"), result: args },
        ],
    );
    assert_eq!(s.mode(), Mode::Streaming);
    assert_eq!(
        rows(&s),
        vec![
            "user:q".to_owned(),
            "partial:Hello".to_owned(),
            "invoked:[tool echo invoked: {\"message\":\"hi\"}]".to_owned(),
            "returned:[tool echo returned: {\"message\":\"hi\"}]".to_owned(),
        ]
    );
    let s = s.apply_agent_event(AgentEvent::TurnDone);
    assert_eq!(s.mode(), Mode::Idle);
}

#[test]
fn failure_returns_to_idle_with_an_error_row() {
    let s = type_text(AppState::initial(), "q");
    let (s, _) = press(s, KeyAction::Send);
    let s = s.apply_agent_event(AgentEvent::Failure(MessageBody::new("broken")));
    assert_eq!(s.mode(), Mode::Idle);
    assert_eq!(rows(&s), vec!["user:q".to_owned(), "err:broken".to_owned()]);
}

#[test]
fn frame_key_maps_and_applies() {
    let ev = InputEvent::Key(KeyPress { code: KeyCode::Char('c'), modifiers: MOD_CONTROL });
    let (s, effect) = frame_key(AppState::initial(), Some(&ev));
    assert!(s.is_quit());
    assert_eq!(effect, None);
    let (s, effect) = frame_key(AppState::initial(), None);
    assert_eq!(s.mode(), Mode::Idle);
    assert_eq!(effect, None);
    let ev = InputEvent::Key(KeyPress { code: KeyCode::Char('z'), modifiers: MOD_NONE });
    let (s, _) = frame_key(AppState::initial(), Some(&ev));
    assert_eq!(s.input().lines().to_vec(), vec!["z".to_owned()]);
}

#[test]
fn canceller_is_dropped_when_not_streaming() {
    let (c, observer) = cancel_channel();
    let (kept, signalled): (Option<Canceller>, bool) = settle_canceller(None, Some(c), None, Mode::Idle);
    assert!(kept.is_none());
    assert!(!signalled);
    assert!(observer.is_cancelled(), "dropping the handle tells the producer to stop");
}

#[test]
fn canceller_is_signalled_and_kept_while_streaming() {
    let (c, observer) = cancel_channel();
    let (kept, signalled) = settle_canceller(Some(AppEffect::SignalCancel), Some(c), None, Mode::Streaming);
    assert!(kept.is_some());
    assert!(signalled);
    assert!(observer.is_cancelled());
}

#[test]
fn send_swaps_in_the_new_canceller() {
    let (old, old_observer) = cancel_channel();
    let (new, new_observer) = cancel_channel();
    let (kept, signalled) = settle_canceller(Some(AppEffect::SendInput), Some(old), Some(new), Mode::Streaming);
    assert!(kept.is_some());
    assert!(!signalled);
    assert!(old_observer.is_cancelled());
    assert!(!new_observer.is_cancelled());
    drop(kept);
    assert!(new_observer.is_cancelled());
}

#[test]
fn page_up_then_page_down_returns_to_bottom() {
    let mut s = AppState::initial();
    s = press(s, KeyAction::PageUp).0;
    assert_eq!(s.history().scroll_offset(), 10);
    s = press(s, KeyAction::PageDown).0;
    assert_eq!(s.history().scroll_offset(), 0);
}

#[test]
fn esc_signals_the_producer_even_though_the_handle_is_dropped() {
    let (c, observer) = cancel_channel();
    let (kept, signalled) = settle_canceller(Some(AppEffect::SignalCancel), Some(c.clone()), None, Mode::Idle);
    assert!(kept.is_none());
    assert!(signalled);
    assert!(observer.is_cancelled(), "the signal arrived while another handle is still alive");
    drop(c);
}

#[test]
fn pending_send_is_the_prompt_in_the_history() {
    let s = type_text(AppState::initial(), "h");
    let (s, _) = press(s, KeyAction::Send);
    let cloned = s.clone();
    let (pending, s) = s.take_pending_send();
    assert_eq!(pending.map(|b| b.as_str().to_owned()), Some("h".to_owned()));
    assert_eq!(rows(&s), vec!["user:h".to_owned()]);
    assert_eq!(rows(&cloned), rows(&s));
    assert_eq!(cloned.mode(), Mode::Streaming);
}
