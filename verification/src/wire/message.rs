//! Wire-format chat message.  Private fields; constructors cover each `Role`.

use vstd::prelude::*;
use crate::newtype::{MessageBody, ToolCallId, ToolName};

verus! {

/// Speaker of a chat message.
#[derive(Debug, Clone, Copy, PartialEq, Eq, Structural)]
pub enum Role {
    System,
    User,
    Assistant,
    Tool,
}

/// Discriminator for tool calls; only `function` calls are defined.
#[derive(Debug, Clone, Copy, PartialEq, Eq, Structural)]
pub enum ToolCallKind {
    Function,
}

/// Function name plus JSON-stringified arguments, kept raw.
#[derive(Debug)]
pub struct ToolCallFunction {
    name: ToolName,
    arguments: String,
}

impl View for ToolCallFunction {
    type V = (Seq<char>, Seq<char>);

    closed spec fn view(&self) -> (Seq<char>, Seq<char>) {
        (self.name@, self.arguments@)
    }
}

impl Clone for ToolCallFunction {
    fn clone(&self) -> (r: Self)
        ensures
            r@ == self@,
    {
        ToolCallFunction { name: self.name.clone(), arguments: self.arguments.clone() }
    }
}

impl ToolCallFunction {
    /// Function name.
    pub fn name(&self) -> (r: &ToolName)
        ensures
            r@ == self@.0,
    {
        &self.name
    }

    /// Raw JSON-stringified arguments.
    pub fn arguments(&self) -> (r: &str)
        ensures
            r@ == self@.1,
    {
        self.arguments.as_str()
    }
}

/// One tool-call slot within an assistant turn.
#[derive(Debug)]
pub struct ToolCall {
    id: ToolCallId,
    kind: ToolCallKind,
    function: ToolCallFunction,
}

/// A tool call seen as its id, function name and arguments.
pub type ToolCallView = (Seq<char>, Seq<char>, Seq<char>);

impl View for ToolCall {
    type V = ToolCallView;

    closed spec fn view(&self) -> ToolCallView {
        (self.id@, self.function@.0, self.function@.1)
    }
}

impl Clone for ToolCall {
    fn clone(&self) -> (r: Self)
        ensures
            r@ == self@,
    {
        ToolCall { id: self.id.clone(), kind: self.kind, function: self.function.clone() }
    }
}

impl ToolCall {
    /// A function-type tool call.
    pub fn new(id: ToolCallId, name: ToolName, arguments_json: String) -> (r: Self)
        ensures
            r@ == (id@, name@, arguments_json@),
    {
        ToolCall {
            id,
            kind: ToolCallKind::Function,
            function: ToolCallFunction { name, arguments: arguments_json },
        }
    }

    /// Slot id.
    pub fn id(&self) -> (r: &ToolCallId)
        ensures
            r@ == self@.0,
    {
        &self.id
    }

    /// Discriminator.
    pub fn kind(&self) -> (r: ToolCallKind)
        ensures
            r == ToolCallKind::Function,
    {
        match self.kind {
            ToolCallKind::Function => ToolCallKind::Function,
        }
    }

    /// Function payload.
    pub fn function(&self) -> (r: &ToolCallFunction)
        ensures
            r@ == (self@.1, self@.2),
    {
        &self.function
    }
}

/// The views of a sequence of tool calls.
pub open spec fn calls_view(calls: Seq<ToolCall>) -> Seq<ToolCallView> {
    calls.map_values(|c: ToolCall| c@)
}

/// A message seen as plain data.
pub struct MessageView {
    pub role: Role,
    pub content: Option<Seq<char>>,
    pub tool_call_id: Option<Seq<char>>,
    pub tool_calls: Option<Seq<ToolCallView>>,
}

/// One chat message.  Field privacy is preserved by the typed constructors.
#[derive(Debug)]
pub struct Message {
    role: Role,
    content: Option<MessageBody>,
    tool_call_id: Option<ToolCallId>,
    tool_calls: Option<Vec<ToolCall>>,
}

impl View for Message {
    type V = MessageView;

    closed spec fn view(&self) -> MessageView {
        MessageView {
            role: self.role,
            content: match self.content {
                Some(b) => Some(b@),
                None => None,
            },
            tool_call_id: match self.tool_call_id {
                Some(i) => Some(i@),
                None => None,
            },
            tool_calls: match self.tool_calls {
                Some(v) => Some(calls_view(v@)),
                None => None,
            },
        }
    }
}

/// Clone a list of tool calls.
fn clone_calls(calls: &Vec<ToolCall>) -> (r: Vec<ToolCall>)
    ensures
        calls_view(r@) == calls_view(calls@),
{
    let mut r: Vec<ToolCall> = Vec::new();
    let mut i: usize = 0;
    while i < calls.len()
        invariant
            i <= calls@.len(),
            r@.len() == i,
            forall|j: int| 0 <= j < i ==> r@[j]@ == calls@[j]@,
        decreases calls@.len() - i,
    {
        r.push(calls[i].clone());
        i = i + 1;
    }
    assert(calls_view(r@) =~= calls_view(calls@));
    r
}

impl Clone for Message {
    fn clone(&self) -> (r: Self)
        ensures
            r@ == self@,
    {
        let content = match &self.content {
            Some(b) => Some(b.clone()),
            None => None,
        };
        let tool_call_id = match &self.tool_call_id {
            Some(i) => Some(i.clone()),
            None => None,
        };
        let tool_calls = match &self.tool_calls {
            Some(v) => Some(clone_calls(v)),
            None => None,
        };
        Message { role: self.role, content, tool_call_id, tool_calls }
    }
}

impl Message {
    /// A system preamble.
    pub fn system(body: MessageBody) -> (r: Self)
        ensures
            r@ == (MessageView { role: Role::System, content: Some(body@), tool_call_id: None, tool_calls: None }),
    {
        Message { role: Role::System, content: Some(body), tool_call_id: None, tool_calls: None }
    }

    /// A user prompt.
    pub fn user(body: MessageBody) -> (r: Self)
        ensures
            r@ == (MessageView { role: Role::User, content: Some(body@), tool_call_id: None, tool_calls: None }),
    {
        Message { role: Role::User, content: Some(body), tool_call_id: None, tool_calls: None }
    }

    /// An assistant turn containing plain text.
    pub fn assistant(body: MessageBody) -> (r: Self)
        ensures
            r@ == (MessageView { role: Role::Assistant, content: Some(body@), tool_call_id: None, tool_calls: None }),
    {
        Message { role: Role::Assistant, content: Some(body), tool_call_id: None, tool_calls: None }
    }

    /// An assistant turn that contains tool calls and no plain content.
    pub fn assistant_tool_calls(calls: Vec<ToolCall>) -> (r: Self)
        ensures
            r@ == (MessageView {
                role: Role::Assistant,
                content: None,
                tool_call_id: None,
                tool_calls: Some(calls_view(calls@)),
            }),
    {
        Message { role: Role::Assistant, content: None, tool_call_id: None, tool_calls: Some(calls) }
    }

    /// An assistant turn that contains both text and tool calls.
    pub fn assistant_text_and_tool_calls(body: MessageBody, calls: Vec<ToolCall>) -> (r: Self)
        ensures
            r@ == (MessageView {
                role: Role::Assistant,
                content: Some(body@),
                tool_call_id: None,
                tool_calls: Some(calls_view(calls@)),
            }),
    {
        Message {
            role: Role::Assistant,
            content: Some(body),
            tool_call_id: None,
            tool_calls: Some(calls),
        }
    }

    /// A tool-result message responding to a prior tool call.
    pub fn tool(call_id: ToolCallId, body: MessageBody) -> (r: Self)
        ensures
            r@ == (MessageView { role: Role::Tool, content: Some(body@), tool_call_id: Some(call_id@), tool_calls: None }),
    {
        Message { role: Role::Tool, content: Some(body), tool_call_id: Some(call_id), tool_calls: None }
    }

    /// Speaker.
    pub fn role(&self) -> (r: Role)
        ensures
            r == self@.role,
    {
        self.role
    }

    /// Body text, if any.
    pub fn content(&self) -> (r: Option<&MessageBody>)
        ensures
            r matches Some(b) ==> self@.content == Some(b@),
            r is None ==> self@.content is None,
    {
        match &self.content {
            Some(b) => Some(b),
            None => None,
        }
    }

    /// Tool-call id (only set for tool messages).
    pub fn tool_call_id(&self) -> (r: Option<&ToolCallId>)
        ensures
            r matches Some(i) ==> self@.tool_call_id == Some(i@),
            r is None ==> self@.tool_call_id is None,
    {
        match &self.tool_call_id {
            Some(i) => Some(i),
            None => None,
        }
    }

    /// Tool calls (only set for assistant turns that requested tools).
    pub fn tool_calls(&self) -> (r: Option<&[ToolCall]>)
        ensures
            r matches Some(c) ==> self@.tool_calls == Some(calls_view(c@)),
            r is None ==> self@.tool_calls is None,
    {
        match &self.tool_calls {
            Some(v) => Some(v.as_slice()),
            None => None,
        }
    }
}

} // verus!
