use term_cat::agent::ChatEvent;
use term_cat::newtype::{FinishReason, MessageBody, ToolCallId, ToolName};
use term_cat::wire::{
    ChatCompletionChunk, ChunkChoice, ChunkDelta, ChunkToolCall, ChunkToolCallFunction, ToolCallKind,
};
use term_cat::{Error, WireError};

fn choice(content: Option<&str>, tool_calls: Option<Vec<ChunkToolCall>>, finish: Option<&str>) -> ChunkChoice {
    ChunkChoice::new(
        ChunkDelta::new(content.map(MessageBody::new), tool_calls),
        finish.map(|s| s.to_owned()),
    )
}

fn chunk(choices: Vec<ChunkChoice>) -> ChatCompletionChunk {
    ChatCompletionChunk::new(choices)
}

#[test]
fn content_delta_lowers_to_token() {
    let c = chunk(vec![choice(Some("hello"), None, None)]);
    let events = c.into_events().expect("into_events");
    assert_eq!(events.len(), 1usize, "event count");
    let body = match events.first().expect("no first event") {
        ChatEvent::Token(body) => Some(body.as_str().to_owned()),
        ChatEvent::ToolCallStart(_, _, _) | ChatEvent::ToolCallArgs(_, _) | ChatEvent::Finished(_) => None,
    };
    assert_eq!(body, Some("hello".to_owned()), "token body");
}

#[test]
fn finish_reason_stop_lowers_to_finished_stop() {
    let c = chunk(vec![choice(None, None, Some("stop"))]);
    let events = c.into_events().expect("into_events");
    assert_eq!(events.len(), 1usize, "event count");
    let reason = match events.first().expect("no first event") {
        ChatEvent::Finished(r) => Some(*r),
        ChatEvent::Token(_) | ChatEvent::ToolCallStart(_, _, _) | ChatEvent::ToolCallArgs(_, _) => None,
    };
    assert_eq!(reason, Some(FinishReason::Stop), "finish reason");
}

#[test]
fn finish_reason_tool_calls_lowers_to_tool_calls() {
    let c = chunk(vec![choice(None, None, Some("tool_calls"))]);
    let events = c.into_events().expect("into_events");
    let reason = events.first().and_then(|e| match e {
        ChatEvent::Finished(r) => Some(*r),
        ChatEvent::Token(_) | ChatEvent::ToolCallStart(_, _, _) | ChatEvent::ToolCallArgs(_, _) => None,
    });
    assert_eq!(reason, Some(FinishReason::ToolCalls), "finish reason");
}

#[test]
fn unknown_finish_reason_returns_wire_error() {
    let c = chunk(vec![choice(None, None, Some("unknown_reason"))]);
    let err = c.into_events().expect_err("into_events unknown reason");
    let is_unknown = matches!(err, Error::Wire(WireError::UnknownFinishReason(_)));
    assert!(is_unknown, "Error::Wire(UnknownFinishReason)");
}

#[test]
fn tool_call_start_lowers_to_tool_call_start() {
    let call = ChunkToolCall::new(
        0,
        Some(ToolCallId::new("call_xyz")),
        Some(ToolCallKind::Function),
        Some(ChunkToolCallFunction::new(Some(ToolName::new("echo")), Some(String::new()))),
    );
    let c = chunk(vec![choice(None, Some(vec![call]), None)]);
    let events = c.into_events().expect("into_events");
    assert_eq!(events.len(), 1usize, "event count");
    let id_and_name = match events.first().expect("no first event") {
        ChatEvent::ToolCallStart(_, id, name) => Some((id.as_str().to_owned(), name.as_str().to_owned())),
        ChatEvent::Token(_) | ChatEvent::ToolCallArgs(_, _) | ChatEvent::Finished(_) => None,
    };
    assert_eq!(id_and_name, Some(("call_xyz".to_owned(), "echo".to_owned())), "tool call id+name");
}

#[test]
fn tool_call_args_fragment_lowers_to_tool_call_args() {
    let call = ChunkToolCall::new(
        0,
        None,
        None,
        Some(ChunkToolCallFunction::new(None, Some("{\"msg\":".to_owned()))),
    );
    let c = chunk(vec![choice(None, Some(vec![call]), None)]);
    let events = c.into_events().expect("into_events");
    assert_eq!(events.len(), 1usize, "event count");
    let args = match events.first().expect("no first event") {
        ChatEvent::ToolCallArgs(_, body) => Some(body.as_str().to_owned()),
        ChatEvent::Token(_) | ChatEvent::ToolCallStart(_, _, _) | ChatEvent::Finished(_) => None,
    };
    assert_eq!(args, Some("{\"msg\":".to_owned()), "args fragment");
}

#[test]
fn empty_choices_yields_empty_events() {
    let c = chunk(vec![]);
    let events = c.into_events().expect("into_events");
    assert_eq!(events.len(), 0usize, "no events");
}

#[test]
fn content_plus_finish_lowers_to_two_events() {
    let c = chunk(vec![choice(Some("bye"), None, Some("stop"))]);
    let events = c.into_events().expect("into_events");
    assert_eq!(events.len(), 2usize, "event count");
}

#[test]
fn tool_deltas_come_before_content_and_finish() {
    let call = ChunkToolCall::new(
        2,
        Some(ToolCallId::new("c2")),
        None,
        Some(ChunkToolCallFunction::new(Some(ToolName::new("now")), Some("{}".to_owned()))),
    );
    let c = chunk(vec![choice(Some("text"), Some(vec![call]), Some("length"))]);
    let events = c.into_events().expect("into_events");
    assert_eq!(events.len(), 4usize);
    assert!(matches!(&events[0], ChatEvent::ToolCallStart(i, _, n) if i.value() == 2 && n.as_str() == "now"));
    assert!(matches!(&events[1], ChatEvent::ToolCallArgs(i, b) if i.value() == 2 && b.as_str() == "{}"));
    assert!(matches!(&events[2], ChatEvent::Token(b) if b.as_str() == "text"));
    assert!(matches!(&events[3], ChatEvent::Finished(FinishReason::Length)));
}

#[test]
fn content_filter_and_empty_content() {
    let c = chunk(vec![choice(Some(""), None, Some("content_filter"))]);
    let events = c.into_events().expect("into_events");
    assert_eq!(events.len(), 2usize, "empty content still yields a token");
    assert!(matches!(&events[0], ChatEvent::Token(b) if b.as_str().is_empty()));
    assert!(matches!(&events[1], ChatEvent::Finished(FinishReason::ContentFilter)));
}

#[test]
fn unknown_reason_in_a_later_choice_fails_the_chunk() {
    let c = chunk(vec![choice(Some("ok"), None, None), choice(None, None, Some("weird"))]);
    match c.into_events() {
        Err(Error::Wire(WireError::UnknownFinishReason(s))) => assert_eq!(s, "weird"),
        _ => panic!("expected UnknownFinishReason"),
    }
}
