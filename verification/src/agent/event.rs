//! Events that flow from the streaming parser into the loop, and from the
//! loop to the user interface.

use vstd::prelude::*;
use crate::newtype::{FinishReason, MessageBody, ToolCallId, ToolCallIndex, ToolName};

verus! {

/// One unit of progress from the streaming response.
#[derive(Debug)]
pub enum ChatEvent {
    /// A token of assistant text.
    Token(MessageBody),
    /// The server has started a new tool-call slot at `index`.
    ToolCallStart(ToolCallIndex, ToolCallId, ToolName),
    /// A partial argument fragment for the tool call at `index`.
    ToolCallArgs(ToolCallIndex, MessageBody),
    /// The streaming response has ended.
    Finished(FinishReason),
}

/// A `ChatEvent` seen as plain data.
pub enum ChatEventView {
    Token(Seq<char>),
    ToolCallStart(u32, Seq<char>, Seq<char>),
    ToolCallArgs(u32, Seq<char>),
    Finished(FinishReason),
}

impl View for ChatEvent {
    type V = ChatEventView;

    open spec fn view(&self) -> ChatEventView {
        match self {
            ChatEvent::Token(b) => ChatEventView::Token(b@),
            ChatEvent::ToolCallStart(i, id, n) => ChatEventView::ToolCallStart(i@, id@, n@),
            ChatEvent::ToolCallArgs(i, b) => ChatEventView::ToolCallArgs(i@, b@),
            ChatEvent::Finished(r) => ChatEventView::Finished(*r),
        }
    }
}

impl Clone for ChatEvent {
    fn clone(&self) -> (r: Self)
        ensures
            r@ == self@,
    {
        match self {
            ChatEvent::Token(b) => ChatEvent::Token(b.clone()),
            ChatEvent::ToolCallStart(i, id, n) => ChatEvent::ToolCallStart(*i, id.clone(), n.clone()),
            ChatEvent::ToolCallArgs(i, b) => ChatEvent::ToolCallArgs(*i, b.clone()),
            ChatEvent::Finished(r) => ChatEvent::Finished(*r),
        }
    }
}

/// One unit of progress observable by the user interface.
#[derive(Debug)]
pub enum AgentEvent {
    /// A token of assistant text was streamed.
    AssistantToken(MessageBody),
    /// A tool was invoked with the given arguments.
    ToolInvoked { name: ToolName, args: serde_json::Value },
    /// A tool returned the given result.
    ToolReturned { name: ToolName, result: serde_json::Value },
    /// The entire turn (including any tool-call follow-ups) is done.
    TurnDone,
    /// A non-fatal error occurred during the turn; the message is for display.
    Failure(MessageBody),
}

} // verus!
