//! What crosses from the user interface to the producer and back.

use vstd::prelude::*;
use crate::agent::event::{AgentEvent, ChatEvent, ChatEventView};
use crate::agent::loop_state::{AgentEventView, messages_view};
use crate::newtype::MessageBody;
use crate::tui::history::{ChatHistory, EntryView, HistoryEntry, HistoryView, finalize_spec, push_spec};
use crate::wire::message::{Message, MessageView, Role};

verus! {

/// The wire message a history entry contributes: user prompts and completed
/// assistant turns; partial turns, tool rows and errors are display-only.
pub open spec fn entry_message(e: EntryView) -> Option<MessageView> {
    match e {
        EntryView::User(b) => Some(MessageView { role: Role::User, content: Some(b), tool_call_id: None, tool_calls: None }),
        EntryView::AssistantComplete(b) => Some(
            MessageView { role: Role::Assistant, content: Some(b), tool_call_id: None, tool_calls: None },
        ),
        _ => None,
    }
}

/// The wire messages of a sequence of history entries, in order.
pub open spec fn wire_of_entries(es: Seq<EntryView>) -> Seq<MessageView>
    decreases es.len(),
{
    if es.len() == 0 {
        Seq::empty()
    } else {
        match entry_message(es.last()) {
            Some(m) => wire_of_entries(es.drop_last()).push(m),
            None => wire_of_entries(es.drop_last()),
        }
    }
}

/// Project the user-visible history into the wire messages the API expects.
pub fn history_to_wire(history: &ChatHistory) -> (r: Vec<Message>)
    ensures
        messages_view(r@) == wire_of_entries(history@.0),
{
    let entries = history.entries();
    let mut out: Vec<Message> = Vec::new();
    let mut i: usize = 0;
    while i < entries.len()
        invariant
            i <= entries@.len(),
            entries@.map_values(|e: HistoryEntry| e@) == history@.0,
            messages_view(out@) == wire_of_entries(history@.0.subrange(0, i as int)),
        decreases entries@.len() - i,
    {
        let ghost before = out@;
        let ghost es = history@.0.subrange(0, i + 1);
        assert(es.drop_last() =~= history@.0.subrange(0, i as int));
        assert(es.last() == entries@[i as int]@);
        match &entries[i] {
            HistoryEntry::User(body) => {
                out.push(Message::user(body.clone()));
                assert(messages_view(out@) =~= messages_view(before).push(out@.last()@));
            },
            HistoryEntry::AssistantComplete(body) => {
                out.push(Message::assistant(body.clone()));
                assert(messages_view(out@) =~= messages_view(before).push(out@.last()@));
            },
            _ => {},
        }
        i = i + 1;
    }
    assert(history@.0.subrange(0, i as int) =~= history@.0);
    out
}

/// The event the user interface sees for a streamed event when the stream
/// is shown as it arrives: tokens only; tool-call deltas and finishes are
/// not shown.
pub fn chat_to_agent(event: ChatEvent) -> (r: Option<AgentEvent>)
    ensures
        match event@ {
            ChatEventView::Token(b) => r matches Some(e) && e@ == AgentEventView::AssistantToken(b),
            _ => r is None,
        },
{
    match event {
        ChatEvent::Token(body) => Some(AgentEvent::AssistantToken(body)),
        ChatEvent::ToolCallStart(_, _, _) | ChatEvent::ToolCallArgs(_, _) | ChatEvent::Finished(_) => None,
    }
}

/// Display-only rows never reach the wire: a partial turn, a tool row or
/// an error row adds no message.
pub proof fn lemma_display_rows_stay_off_wire(es: Seq<EntryView>, e: EntryView)
    requires
        !(e is User),
        !(e is AssistantComplete),
    ensures
        wire_of_entries(es.push(e)) == wire_of_entries(es),
{
    assert(es.push(e).drop_last() =~= es);
}

/// User prompts and completed assistant turns reach the wire as user and
/// assistant messages with the same text, in the order they stand.
pub proof fn lemma_conversation_rows_reach_wire(es: Seq<EntryView>, b: Seq<char>)
    ensures
        wire_of_entries(es.push(EntryView::User(b))) == wire_of_entries(es).push(
            MessageView { role: Role::User, content: Some(b), tool_call_id: None, tool_calls: None },
        ),
        wire_of_entries(es.push(EntryView::AssistantComplete(b))) == wire_of_entries(es).push(
            MessageView { role: Role::Assistant, content: Some(b), tool_call_id: None, tool_calls: None },
        ),
{
    assert(es.push(EntryView::User(b)).drop_last() =~= es);
    assert(es.push(EntryView::AssistantComplete(b)).drop_last() =~= es);
}

/// The wire history of two runs of rows is the wire history of the first
/// followed by that of the second.
pub proof fn lemma_wire_of_concat(a: Seq<EntryView>, b: Seq<EntryView>)
    ensures
        wire_of_entries(a + b) == wire_of_entries(a) + wire_of_entries(b),
    decreases b.len(),
{
    if b.len() == 0 {
        assert(a + b =~= a);
        assert(wire_of_entries(a) + wire_of_entries(b) =~= wire_of_entries(a));
    } else {
        let b0 = b.drop_last();
        lemma_wire_of_concat(a, b0);
        assert((a + b).drop_last() =~= a + b0);
        assert((a + b).last() == b.last());
        match entry_message(b.last()) {
            Some(m) => {
                assert(wire_of_entries(a) + wire_of_entries(b0).push(m) =~= (wire_of_entries(a) + wire_of_entries(b0)).push(m));
            },
            None => {},
        }
    }
}

/// A prompt the user sends reaches the wire: the wire history after it is
/// the wire history before it with the user message appended.
pub proof fn lemma_sent_prompt_reaches_wire(h: HistoryView, body: Seq<char>)
    ensures
        wire_of_entries(push_spec(h, EntryView::User(body)).0) == wire_of_entries(h.0).push(
            MessageView { role: Role::User, content: Some(body), tool_call_id: None, tool_calls: None },
        ),
{
    assert(h.0.push(EntryView::User(body)).drop_last() =~= h.0);
}

/// An assistant turn reaches the wire once it completes, and not before:
/// completing a streaming turn appends its text as an assistant message,
/// while the partial turn itself contributes nothing.
pub proof fn lemma_completed_turn_reaches_wire(h: HistoryView)
    requires
        h.0.len() > 0,
        h.0.last() is AssistantPartial,
    ensures
        wire_of_entries(h.0) == wire_of_entries(h.0.drop_last()),
        wire_of_entries(finalize_spec(h).0) == wire_of_entries(h.0).push(
            MessageView {
                role: Role::Assistant,
                content: Some(h.0.last()->AssistantPartial_0),
                tool_call_id: None,
                tool_calls: None,
            },
        ),
{
    let f = finalize_spec(h).0;
    assert(f.drop_last() =~= h.0.drop_last());
}

/// The events that close a turn: a failure report when the stream failed,
/// then always `TurnDone`, last.
pub fn closing_events(failure: Option<MessageBody>) -> (r: Vec<AgentEvent>)
    ensures
        match failure {
            Some(m) => r@.len() == 2 && r@[0]@ == AgentEventView::Failure(m@) && r@[1]@ == AgentEventView::TurnDone,
            None => r@.len() == 1 && r@[0]@ == AgentEventView::TurnDone,
        },
{
    let mut out: Vec<AgentEvent> = Vec::new();
    match failure {
        Some(m) => out.push(AgentEvent::Failure(m)),
        None => {},
    }
    out.push(AgentEvent::TurnDone);
    out
}

} // verus!
