use term_cat::agent::{AgentEvent, ChatEvent};
use term_cat::bridge::{chat_to_agent, closing_events, history_to_wire};
use term_cat::bridge::cancel::{TryRecvOutcome, cancelled_by};
use term_cat::bridge::cancel_channel;
use term_cat::newtype::{FinishReason, MessageBody, ToolCallIndex};
use term_cat::tui::ChatHistory;
use term_cat::wire::Role;

#[test]
fn only_user_and_completed_turns_reach_the_wire() {
    let h = ChatHistory::empty()
        .push_user(MessageBody::new("q1"))
        .extend_assistant_partial(&MessageBody::new("a1"))
        .finalize_assistant()
        .push_tool_invoked(MessageBody::new("[tool x invoked: null]"))
        .push_error(MessageBody::new("oops"))
        .push_user(MessageBody::new("q2"))
        .extend_assistant_partial(&MessageBody::new("partial"));
    let wire = history_to_wire(&h);
    let seen: Vec<(Role, String)> = wire
        .iter()
        .map(|m| (m.role(), m.content().map(|b| b.as_str().to_owned()).unwrap_or_default()))
        .collect();
    assert_eq!(
        seen,
        vec![
            (Role::User, "q1".to_owned()),
            (Role::Assistant, "a1".to_owned()),
            (Role::User, "q2".to_owned()),
        ]
    );
}

#[test]
fn only_tokens_are_forwarded() {
    match chat_to_agent(ChatEvent::Token(MessageBody::new("t"))) {
        Some(AgentEvent::AssistantToken(b)) => assert_eq!(b.as_str(), "t"),
        _ => panic!("token should be forwarded"),
    }
    assert!(chat_to_agent(ChatEvent::Finished(FinishReason::Stop)).is_none());
    assert!(chat_to_agent(ChatEvent::ToolCallArgs(ToolCallIndex::new(0), MessageBody::new("{}"))).is_none());
}

#[test]
fn turn_always_ends_with_turn_done() {
    let ok = closing_events(None);
    assert_eq!(ok.len(), 1);
    assert!(matches!(ok[0], AgentEvent::TurnDone));
    let failed = closing_events(Some(MessageBody::new("boom")));
    assert_eq!(failed.len(), 2);
    assert!(matches!(&failed[0], AgentEvent::Failure(m) if m.as_str() == "boom"));
    assert!(matches!(failed[1], AgentEvent::TurnDone));
}

#[test]
fn cancel_outcomes() {
    assert!(cancelled_by(TryRecvOutcome::Received));
    assert!(cancelled_by(TryRecvOutcome::Disconnected));
    assert!(!cancelled_by(TryRecvOutcome::Empty));
}

#[test]
fn observer_sees_signal_and_disconnect() {
    let (c, o) = cancel_channel();
    assert!(!o.is_cancelled());
    c.signal();
    assert!(o.is_cancelled());
    let (c2, o2) = cancel_channel();
    let c3 = c2.clone();
    drop(c2);
    assert!(!o2.is_cancelled(), "a clone keeps the channel open");
    drop(c3);
    assert!(o2.is_cancelled());
}
