//! What a tool-aware turn starts from: the history the first request
//! carries.

use vstd::prelude::*;
use crate::agent::loop_state::messages_view;
use crate::newtype::MessageBody;
use crate::wire::message::{Message, MessageView, Role};

verus! {

/// The history of a turn: the system preamble, when there is one, then the
/// conversation so far.
pub open spec fn turn_history_spec(preamble: Option<Seq<char>>, initial: Seq<MessageView>) -> Seq<MessageView> {
    match preamble {
        Some(p) => seq![MessageView { role: Role::System, content: Some(p), tool_call_id: None, tool_calls: None }]
            + initial,
        None => initial,
    }
}

/// Prepend the system preamble, if any, to the conversation so far.
pub fn turn_history(preamble: Option<&MessageBody>, initial: Vec<Message>) -> (r: Vec<Message>)
    ensures
        messages_view(r@) == turn_history_spec(
            match preamble {
                Some(p) => Some(p@),
                None => None,
            },
            messages_view(initial@),
        ),
{
    match preamble {
        Some(p) => {
            let mut out: Vec<Message> = Vec::new();
            out.push(Message::system(p.clone()));
            let mut rest = initial;
            let ghost tail = rest@;
            out.append(&mut rest);
            let ghost pv = Some(p@);
            assert(messages_view(out@) =~= turn_history_spec(pv, messages_view(tail)));
            out
        },
        None => initial,
    }
}

} // verus!
