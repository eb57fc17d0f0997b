use term_cat::agent::loop_state::{tool_failure_value, tool_result_value};
use term_cat::agent::loop_state::{handle_event, opened, record_tool_result, step_announced, step_dispatched, stream_ended};
use term_cat::agent::{AgentEvent, ChannelFilter, ChatEvent, LoopState, LoopStep, PendingCall, ToolCallAccumulator};
use term_cat::newtype::{FinishReason, MessageBody, ToolCallId, ToolCallIndex, ToolName};
use term_cat::wire::{Message, Role};

fn streaming(step: LoopStep) -> (Option<AgentEvent>, ToolCallAccumulator, MessageBody, Vec<Message>, ChannelFilter) {
    match step {
        LoopStep::Emit(e, LoopState::Streaming { accumulator, partial_text, history, filter }) => {
            (Some(e), accumulator, partial_text, history, filter)
        }
        LoopStep::Continue(LoopState::Streaming { accumulator, partial_text, history, filter }) => {
            (None, accumulator, partial_text, history, filter)
        }
        other => panic!("expected a streaming state, got {other:?}"),
    }
}

fn start() -> (ToolCallAccumulator, MessageBody, Vec<Message>, ChannelFilter) {
    match opened(vec![Message::user(MessageBody::new("hi"))]) {
        LoopState::Streaming { accumulator, partial_text, history, filter } => (accumulator, partial_text, history, filter),
        other => panic!("unexpected {other:?}"),
    }
}

fn pending(id: &str, name: &str, args: &str) -> PendingCall {
    PendingCall::new(ToolCallId::new(id), ToolName::new(name), args.to_owned())
}

#[test]
fn tokens_pass_the_filter_and_build_the_partial_text() {
    let (acc, partial, history, filter) = start();
    let (e, acc, partial, history, filter) =
        streaming(handle_event(ChatEvent::Token(MessageBody::new("<|channel>x<channel|>Hi")), acc, partial, history, filter));
    assert!(matches!(e, Some(AgentEvent::AssistantToken(ref b)) if b.as_str() == "Hi"));
    assert_eq!(partial.as_str(), "Hi");
    let (e, _, partial, _, _) = streaming(handle_event(ChatEvent::Token(MessageBody::new("<|chan")), acc, partial, history, filter));
    assert!(e.is_none(), "a partial marker yields nothing yet");
    assert_eq!(partial.as_str(), "Hi");
}

#[test]
fn tool_call_deltas_are_accumulated_silently() {
    let (acc, partial, history, filter) = start();
    let (e, acc, partial, history, filter) = streaming(handle_event(
        ChatEvent::ToolCallStart(ToolCallIndex::new(0), ToolCallId::new("c0"), ToolName::new("echo")),
        acc,
        partial,
        history,
        filter,
    ));
    assert!(e.is_none());
    let (e, acc, _, _, _) = streaming(handle_event(
        ChatEvent::ToolCallArgs(ToolCallIndex::new(0), MessageBody::new("{}")),
        acc,
        partial,
        history,
        filter,
    ));
    assert!(e.is_none());
    let calls = acc.finalize();
    assert_eq!(calls.len(), 1);
    assert_eq!(calls[0].args_buf(), "{}");
}

#[test]
fn stop_ends_the_turn() {
    let (acc, partial, history, filter) = start();
    assert!(matches!(handle_event(ChatEvent::Finished(FinishReason::Stop), acc, partial, history, filter), LoopStep::End));
    assert!(matches!(stream_ended(), LoopStep::End));
}

#[test]
fn tool_calls_finish_records_the_request_and_announces_the_first_call() {
    let (acc, partial, history, filter) = start();
    let acc = acc
        .add_start(ToolCallIndex::new(0), ToolCallId::new("c0"), ToolName::new("echo"))
        .add_start(ToolCallIndex::new(1), ToolCallId::new("c1"), ToolName::new("now"));
    let partial = partial.append("thinking");
    match handle_event(ChatEvent::Finished(FinishReason::ToolCalls), acc, partial, history, filter) {
        LoopStep::Continue(LoopState::AnnouncedTool { current, remaining, history }) => {
            assert_eq!(current.name().as_str(), "echo");
            assert_eq!(remaining.len(), 1);
            assert_eq!(remaining[0].name().as_str(), "now");
            assert_eq!(history.len(), 2);
            let last = &history[1];
            assert_eq!(last.role(), Role::Assistant);
            assert_eq!(last.content().map(|b| b.as_str().to_owned()), Some("thinking".to_owned()));
            assert_eq!(last.tool_calls().map(|c| c.len()), Some(2));
        }
        other => panic!("unexpected {other:?}"),
    }
}

#[test]
fn tool_calls_finish_without_calls_ends() {
    let (acc, partial, history, filter) = start();
    assert!(matches!(
        handle_event(ChatEvent::Finished(FinishReason::ToolCalls), acc, partial, history, filter),
        LoopStep::End
    ));
}

#[test]
fn announce_then_dispatch_then_fresh_request() {
    let step = step_announced(pending("c0", "echo", "{\"message\":\"hi\"}"), Vec::new(), Vec::new());
    let (current, remaining, history) = match step {
        LoopStep::Emit(AgentEvent::ToolInvoked { name, args }, LoopState::DispatchTool { current, remaining, history }) => {
            assert_eq!(name.as_str(), "echo");
            assert_eq!(args, serde_json::from_str::<serde_json::Value>("{\"message\":\"hi\"}").expect("json"));
            (current, remaining, history)
        }
        other => panic!("unexpected {other:?}"),
    };
    let result: serde_json::Value = serde_json::from_str("{\"message\":\"hi\"}").expect("json");
    match step_dispatched(current, remaining, history, result) {
        LoopStep::Emit(AgentEvent::ToolReturned { name, .. }, LoopState::FreshRequest { history }) => {
            assert_eq!(name.as_str(), "echo");
            assert_eq!(history.len(), 1);
            assert_eq!(history[0].role(), Role::Tool);
            assert_eq!(history[0].tool_call_id().map(|i| i.as_str().to_owned()), Some("c0".to_owned()));
            assert_eq!(history[0].content().map(|b| b.as_str().to_owned()), Some("{\"message\":\"hi\"}".to_owned()));
        }
        other => panic!("unexpected {other:?}"),
    }
}

#[test]
fn invalid_arguments_are_announced_as_null() {
    match step_announced(pending("c0", "echo", "{not json"), Vec::new(), Vec::new()) {
        LoopStep::Emit(AgentEvent::ToolInvoked { args, .. }, _) => assert!(args.is_null()),
        other => panic!("unexpected {other:?}"),
    }
}

#[test]
fn dispatch_moves_to_the_next_call_and_records_serialise_failure() {
    let step = record_tool_result(
        pending("c0", "echo", "{}"),
        vec![pending("c1", "now", "")],
        vec![Message::user(MessageBody::new("q"))],
        serde_json::Value::Null,
        None,
    );
    match step {
        LoopStep::Emit(AgentEvent::ToolReturned { .. }, LoopState::AnnouncedTool { current, remaining, history }) => {
            assert_eq!(current.id().as_str(), "c1");
            assert!(remaining.is_empty());
            assert_eq!(history.len(), 2);
            assert_eq!(history[1].content().map(|b| b.as_str().to_owned()), Some("<serialize-error>".to_owned()));
        }
        other => panic!("unexpected {other:?}"),
    }
}

#[test]
fn failed_tool_calls_return_an_error_object() {
    let v = tool_failure_value("boom \"x\"".to_owned());
    assert_eq!(v.to_string(), "{\"error\":\"boom \\\"x\\\"\"}");
    let err = rig_cat::error::Error::Config { field: "unknown tool: nope".to_owned() };
    let r = tool_result_value(Err(err));
    let text = r.get("error").and_then(|e| e.as_str()).expect("error field").to_owned();
    assert!(text.contains("unknown tool: nope"));
    let ok: serde_json::Value = serde_json::from_str("[1,2]").expect("json");
    assert_eq!(tool_result_value(Ok(ok.clone())), ok);
}

#[test]
fn agent_events_clone_whole() {
    let args: serde_json::Value = serde_json::from_str("{\"a\":1}").expect("json");
    let e = AgentEvent::ToolInvoked { name: ToolName::new("echo"), args };
    match e.clone() {
        AgentEvent::ToolInvoked { name, args } => {
            assert_eq!(name.as_str(), "echo");
            assert_eq!(args.to_string(), "{\"a\":1}");
        }
        other => panic!("unexpected {other:?}"),
    }
}
