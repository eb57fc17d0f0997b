//! Response body of a non-streaming chat completion.  Only the fields the
//! client reads are modelled.

use vstd::prelude::*;
use crate::newtype::MessageBody;
use crate::wire::message::{ToolCall, ToolCallView, calls_view};

verus! {

/// The `message` object of a choice, seen as its content and tool calls.
pub struct ResponseMessageView {
    pub content: Option<Seq<char>>,
    pub tool_calls: Option<Seq<ToolCallView>>,
}

/// A choice seen as its message and finish reason.
pub struct ResponseChoiceView {
    pub message: ResponseMessageView,
    pub finish_reason: Option<Seq<char>>,
}

/// The `message` object inside a response choice.
#[derive(Debug)]
pub struct ResponseMessage {
    content: Option<MessageBody>,
    tool_calls: Option<Vec<ToolCall>>,
}

impl View for ResponseMessage {
    type V = ResponseMessageView;

    closed spec fn view(&self) -> ResponseMessageView {
        ResponseMessageView {
            content: match self.content {
                Some(b) => Some(b@),
                None => None,
            },
            tool_calls: match self.tool_calls {
                Some(v) => Some(calls_view(v@)),
                None => None,
            },
        }
    }
}

impl ResponseMessage {
    /// A message with optional text and optional tool calls.
    pub fn new(content: Option<MessageBody>, tool_calls: Option<Vec<ToolCall>>) -> (r: Self)
        ensures
            r@.content == (match content {
                Some(b) => Some(b@),
                None => None::<Seq<char>>,
            }),
            r@.tool_calls == (match tool_calls {
                Some(v) => Some(calls_view(v@)),
                None => None::<Seq<ToolCallView>>,
            }),
    {
        ResponseMessage { content, tool_calls }
    }

    /// Plain assistant text, if any.
    pub fn content(&self) -> (r: Option<&MessageBody>)
        ensures
            r matches Some(b) ==> self@.content == Some(b@),
            r is None ==> self@.content is None,
    {
        match &self.content {
            Some(b) => Some(b),
            None => None,
        }
    }

    /// Tool calls, if any.
    pub fn tool_calls(&self) -> (r: Option<&[ToolCall]>)
        ensures
            r matches Some(c) ==> self@.tool_calls == Some(calls_view(c@)),
            r is None ==> self@.tool_calls is None,
    {
        match &self.tool_calls {
            Some(v) => Some(v.as_slice()),
            None => None,
        }
    }
}

/// One element of `choices[]`.
#[derive(Debug)]
pub struct ResponseChoice {
    message: ResponseMessage,
    finish_reason: Option<String>,
}

impl View for ResponseChoice {
    type V = ResponseChoiceView;

    closed spec fn view(&self) -> ResponseChoiceView {
        ResponseChoiceView {
            message: self.message@,
            finish_reason: match self.finish_reason {
                Some(s) => Some(s@),
                None => None,
            },
        }
    }
}

impl ResponseChoice {
    /// A choice with its message and the server's finish reason.
    pub fn new(message: ResponseMessage, finish_reason: Option<String>) -> (r: Self)
        ensures
            r@.message == message@,
            r@.finish_reason == (match finish_reason {
                Some(s) => Some(s@),
                None => None::<Seq<char>>,
            }),
    {
        ResponseChoice { message, finish_reason }
    }

    /// The assistant turn for this choice.
    pub fn message(&self) -> (r: &ResponseMessage)
        ensures
            r@ == self@.message,
    {
        &self.message
    }

    /// Server-reported finish reason.
    pub fn finish_reason(&self) -> (r: Option<&str>)
        ensures
            r matches Some(s) ==> self@.finish_reason == Some(s@),
            r is None ==> self@.finish_reason is None,
    {
        match &self.finish_reason {
            Some(s) => Some(s.as_str()),
            None => None,
        }
    }
}

/// The views of a sequence of choices.
pub open spec fn choices_view(cs: Seq<ResponseChoice>) -> Seq<ResponseChoiceView> {
    cs.map_values(|c: ResponseChoice| c@)
}

/// The content of the first choice's message, when there is a first choice
/// and its message has content.
pub open spec fn first_content_spec(cs: Seq<ResponseChoiceView>) -> Option<Seq<char>> {
    if cs.len() == 0 {
        None
    } else {
        cs[0].message.content
    }
}

/// The tool calls of the first choice's message, when there are any.
pub open spec fn first_tool_calls_spec(cs: Seq<ResponseChoiceView>) -> Option<Seq<ToolCallView>> {
    if cs.len() == 0 {
        None
    } else {
        cs[0].message.tool_calls
    }
}

/// Top-level response envelope.
#[derive(Debug)]
pub struct ChatCompletionResponse {
    choices: Vec<ResponseChoice>,
}

impl View for ChatCompletionResponse {
    type V = Seq<ResponseChoiceView>;

    closed spec fn view(&self) -> Seq<ResponseChoiceView> {
        choices_view(self.choices@)
    }
}

impl ChatCompletionResponse {
    /// A response holding these choices, in server order.
    pub fn new(choices: Vec<ResponseChoice>) -> (r: Self)
        ensures
            r@ == choices_view(choices@),
    {
        ChatCompletionResponse { choices }
    }

    /// The content of the first choice's message, if any.
    pub fn first_content(&self) -> (r: Option<&MessageBody>)
        ensures
            r matches Some(b) ==> first_content_spec(self@) == Some(b@),
            r is None ==> first_content_spec(self@) is None,
    {
        if self.choices.len() == 0 {
            None
        } else {
            self.choices[0].message().content()
        }
    }

    /// The first choice's tool calls, if any.
    pub fn first_tool_calls(&self) -> (r: Option<&[ToolCall]>)
        ensures
            r matches Some(c) ==> first_tool_calls_spec(self@) == Some(calls_view(c@)),
            r is None ==> first_tool_calls_spec(self@) is None,
    {
        if self.choices.len() == 0 {
            None
        } else {
            self.choices[0].message().tool_calls()
        }
    }

    /// All choices, in server order.
    pub fn choices(&self) -> (r: &[ResponseChoice])
        ensures
            choices_view(r@) == self@,
    {
        self.choices.as_slice()
    }
}

} // verus!
