use term_cat::agent::streaming::turn_history;
use term_cat::newtype::{MessageBody, ToolCallId, ToolName};
use term_cat::wire::{ChatCompletionResponse, Message, ResponseChoice, ResponseMessage, Role, ToolCall, ToolCallKind};

#[test]
fn message_constructors_set_role_and_fields() {
    let m = Message::tool(ToolCallId::new("c9"), MessageBody::new("ok"));
    assert_eq!(m.role(), Role::Tool);
    assert_eq!(m.tool_call_id().map(|i| i.as_str().to_owned()), Some("c9".to_owned()));
    assert!(m.tool_calls().is_none());
    let call = ToolCall::new(ToolCallId::new("c1"), ToolName::new("echo"), "{}".to_owned());
    assert_eq!(call.kind(), ToolCallKind::Function);
    let m = Message::assistant_tool_calls(vec![call]);
    assert_eq!(m.role(), Role::Assistant);
    assert!(m.content().is_none());
    assert_eq!(m.tool_calls().map(|c| c[0].function().arguments().to_owned()), Some("{}".to_owned()));
}

#[test]
fn response_accessors_read_the_first_choice() {
    let call = ToolCall::new(ToolCallId::new("c1"), ToolName::new("now"), String::new());
    let r = ChatCompletionResponse::new(vec![ResponseChoice::new(
        ResponseMessage::new(None, Some(vec![call])),
        Some("tool_calls".to_owned()),
    )]);
    assert!(r.first_content().is_none());
    assert_eq!(r.first_tool_calls().map(|c| c[0].function().name().as_str().to_owned()), Some("now".to_owned()));
    assert_eq!(r.choices().len(), 1);
    assert_eq!(r.choices()[0].finish_reason(), Some("tool_calls"));
    assert!(r.choices()[0].message().content().is_none());
}

#[test]
fn preamble_is_prepended_as_a_system_message() {
    let history = vec![Message::user(MessageBody::new("q"))];
    let full = turn_history(Some(&MessageBody::new("be brief")), history);
    assert_eq!(full.len(), 2);
    assert_eq!(full[0].role(), Role::System);
    assert_eq!(full[0].content().map(|b| b.as_str().to_owned()), Some("be brief".to_owned()));
    assert_eq!(full[1].role(), Role::User);
    let bare = turn_history(None, vec![Message::user(MessageBody::new("q"))]);
    assert_eq!(bare.len(), 1);
}

#[test]
fn message_body_from_string_keeps_the_text() {
    let b = MessageBody::from("kept".to_owned());
    assert_eq!(b.as_str(), "kept");
    assert!(!b.is_empty());
    assert!(MessageBody::new("").is_empty());
    assert_eq!(MessageBody::new("ab").concat(&MessageBody::new("cd")).append("e").into_string(), "abcde");
}
