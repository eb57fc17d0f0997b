//! The decisions of the tool-calling loop.  One turn moves through these
//! phases: issue a request with the current history; stream tokens and
//! tool-call deltas; when the model asks for tools, announce and dispatch
//! each in turn, appending the results to the history; then issue a fresh
//! request.  The outside work of each phase (the HTTP request, reading the
//! stream, running a tool) is done by the caller, which hands the outcome to
//! the functions here and performs the step they return.

use vstd::prelude::*;
use crate::agent::accumulator::{AccumulatorView, PendingCall, PendingView, ToolCallAccumulator, with_args};
use crate::agent::channel_filter::{ChannelFilter, feed_result};
use crate::agent::event::{AgentEvent, ChatEvent, ChatEventView};
use crate::json::{
    json_clone, json_from_str, json_null, json_object_string, json_parse, json_string_object, json_text_of,
    json_to_string,
};
use crate::error::rig_cat_error_debug;
use rig_cat::error::Error as RigCatError;
use crate::newtype::{FinishReason, MessageBody};
use crate::wire::message::{Message, MessageView, Role, ToolCall, calls_view};

verus! {

/// The views of a sequence of messages.
pub open spec fn messages_view(ms: Seq<Message>) -> Seq<MessageView> {
    ms.map_values(|m: Message| m@)
}

/// The views of a sequence of pending calls.
pub open spec fn pendings_view(ps: Seq<PendingCall>) -> Seq<PendingView> {
    ps.map_values(|p: PendingCall| p@)
}

/// State of the tool-calling loop between steps.
#[derive(Debug)]
pub enum LoopState {
    /// About to issue a fresh streaming request with this history.
    FreshRequest { history: Vec<Message> },
    /// Mid-stream: folding token and tool-call deltas.  `filter` strips
    /// channel markers from the tokens before anyone sees them.
    Streaming {
        accumulator: ToolCallAccumulator,
        partial_text: MessageBody,
        history: Vec<Message>,
        filter: ChannelFilter,
    },
    /// The next step announces `current` (an `AgentEvent::ToolInvoked`).
    AnnouncedTool { current: PendingCall, remaining: Vec<PendingCall>, history: Vec<Message> },
    /// The caller runs `current`; its result completes the step.
    DispatchTool { current: PendingCall, remaining: Vec<PendingCall>, history: Vec<Message> },
    /// The turn is over.
    Done,
}

/// The loop state seen as plain data.
pub enum LoopView {
    FreshRequest { history: Seq<MessageView> },
    Streaming {
        accumulator: AccumulatorView,
        partial_text: Seq<char>,
        history: Seq<MessageView>,
        filter: (Seq<char>, bool),
    },
    AnnouncedTool { current: PendingView, remaining: Seq<PendingView>, history: Seq<MessageView> },
    DispatchTool { current: PendingView, remaining: Seq<PendingView>, history: Seq<MessageView> },
    Done,
}

impl View for LoopState {
    type V = LoopView;

    open spec fn view(&self) -> LoopView {
        match self {
            LoopState::FreshRequest { history } => LoopView::FreshRequest { history: messages_view(history@) },
            LoopState::Streaming { accumulator, partial_text, history, filter } => LoopView::Streaming {
                accumulator: accumulator@,
                partial_text: partial_text@,
                history: messages_view(history@),
                filter: filter@,
            },
            LoopState::AnnouncedTool { current, remaining, history } => LoopView::AnnouncedTool {
                current: current@,
                remaining: pendings_view(remaining@),
                history: messages_view(history@),
            },
            LoopState::DispatchTool { current, remaining, history } => LoopView::DispatchTool {
                current: current@,
                remaining: pendings_view(remaining@),
                history: messages_view(history@),
            },
            LoopState::Done => LoopView::Done,
        }
    }
}

/// What one step of the loop produces.
#[derive(Debug)]
pub enum LoopStep {
    /// Yield this event to the user interface, then continue from the state.
    Emit(AgentEvent, LoopState),
    /// Nothing to yield; continue from the state at once.
    Continue(LoopState),
    /// The turn's stream ends.
    End,
}

/// An agent event seen as plain data; a tool event is seen by the tool's
/// name and the JSON text of its arguments or result.
pub enum AgentEventView {
    AssistantToken(Seq<char>),
    ToolInvoked(Seq<char>, Seq<char>),
    ToolReturned(Seq<char>, Seq<char>),
    TurnDone,
    Failure(Seq<char>),
}

impl View for AgentEvent {
    type V = AgentEventView;

    open spec fn view(&self) -> AgentEventView {
        match self {
            AgentEvent::AssistantToken(b) => AgentEventView::AssistantToken(b@),
            AgentEvent::ToolInvoked { name, args } => AgentEventView::ToolInvoked(name@, json_text_of(*args)),
            AgentEvent::ToolReturned { name, result } => AgentEventView::ToolReturned(name@, json_text_of(*result)),
            AgentEvent::TurnDone => AgentEventView::TurnDone,
            AgentEvent::Failure(m) => AgentEventView::Failure(m@),
        }
    }
}

impl Clone for AgentEvent {
    fn clone(&self) -> (r: Self)
        ensures
            r@ == self@,
    {
        match self {
            AgentEvent::AssistantToken(b) => AgentEvent::AssistantToken(b.clone()),
            AgentEvent::ToolInvoked { name, args } => AgentEvent::ToolInvoked {
                name: name.clone(),
                args: json_clone(args),
            },
            AgentEvent::ToolReturned { name, result } => AgentEvent::ToolReturned {
                name: name.clone(),
                result: json_clone(result),
            },
            AgentEvent::TurnDone => AgentEvent::TurnDone,
            AgentEvent::Failure(m) => AgentEvent::Failure(m.clone()),
        }
    }
}

/// A step seen as plain data.
pub enum StepView {
    Emit(AgentEventView, LoopView),
    Continue(LoopView),
    End,
}

impl View for LoopStep {
    type V = StepView;

    open spec fn view(&self) -> StepView {
        match self {
            LoopStep::Emit(e, s) => StepView::Emit(e@, s@),
            LoopStep::Continue(s) => StepView::Continue(s@),
            LoopStep::End => StepView::End,
        }
    }
}

/// The state right after a request is issued with `history`: an empty
/// accumulator, no text yet, a fresh filter.
pub open spec fn streaming_start(history: Seq<MessageView>) -> LoopView {
    LoopView::Streaming {
        accumulator: Seq::empty(),
        partial_text: Seq::empty(),
        history,
        filter: (Seq::empty(), false),
    }
}

/// The assistant message recording the requested calls, with the text the
/// model streamed before them when there is any.
pub open spec fn tool_request_message(partial: Seq<char>, calls: Seq<PendingView>) -> MessageView {
    MessageView {
        role: Role::Assistant,
        content: if partial.len() == 0 { None } else { Some(partial) },
        tool_call_id: None,
        tool_calls: Some(calls),
    }
}

/// The step that announces the first of `calls`, or the end of the turn when
/// there are none.
pub open spec fn announce_first(calls: Seq<PendingView>, history: Seq<MessageView>) -> StepView {
    if calls.len() > 0 {
        StepView::Continue(LoopView::AnnouncedTool { current: calls[0], remaining: calls.drop_first(), history })
    } else {
        StepView::End
    }
}

/// How a streamed event moves the loop.  A token goes through the marker
/// filter: visible text is emitted and added to the turn's text, and a token
/// the filter swallows whole emits nothing.  Tool-call deltas go into the
/// accumulator.  A finish for a reason other than tool calls ends the turn;
/// a finish for tool calls appends the assistant's request to the history
/// and announces the calls in stream order.
pub open spec fn handle_event_spec(
    ev: ChatEventView,
    acc: AccumulatorView,
    partial: Seq<char>,
    history: Seq<MessageView>,
    filter: (Seq<char>, bool),
) -> StepView {
    match ev {
        ChatEventView::Token(t) => {
            let (out, kept, inside) = feed_result(filter.0, filter.1, t);
            if out.len() == 0 {
                StepView::Continue(LoopView::Streaming {
                    accumulator: acc,
                    partial_text: partial,
                    history,
                    filter: (kept, inside),
                })
            } else {
                StepView::Emit(
                    AgentEventView::AssistantToken(out),
                    LoopView::Streaming {
                        accumulator: acc,
                        partial_text: partial + out,
                        history,
                        filter: (kept, inside),
                    },
                )
            }
        },
        ChatEventView::ToolCallStart(i, id, name) => StepView::Continue(LoopView::Streaming {
            accumulator: acc.push((i, (id, name, Seq::empty()))),
            partial_text: partial,
            history,
            filter,
        }),
        ChatEventView::ToolCallArgs(i, frag) => StepView::Continue(LoopView::Streaming {
            accumulator: with_args(acc, i, frag),
            partial_text: partial,
            history,
            filter,
        }),
        ChatEventView::Finished(reason) => match reason {
            FinishReason::ToolCalls => {
                let calls = acc.map_values(|e: (u32, PendingView)| e.1);
                announce_first(calls, history.push(tool_request_message(partial, calls)))
            },
            _ => StepView::End,
        },
    }
}

/// The JSON text of a call's arguments as the tool receives them: the
/// parsed arguments, or `null` when they are not JSON.
pub open spec fn lossy_args_text(args: Seq<char>) -> Seq<char> {
    match json_parse(args) {
        Some(t) => t,
        None => "null"@,
    }
}

/// Parse a call's accumulated arguments as JSON, falling back to `null` when
/// they are not valid JSON, so the tool can fail through its own validation.
pub fn parse_args_lossy(args_buf: &str) -> (r: serde_json::Value)
    ensures
        json_text_of(r) == lossy_args_text(args_buf@),
{
    match json_from_str(args_buf) {
        Ok(v) => v,
        Err(_) => json_null(),
    }
}

/// The state after a request is issued with `history`.
pub fn opened(history: Vec<Message>) -> (r: LoopState)
    ensures
        r@ == streaming_start(messages_view(history@)),
{
    let r = LoopState::Streaming {
        accumulator: ToolCallAccumulator::empty(),
        partial_text: MessageBody::from_string(String::new()),
        history,
        filter: ChannelFilter::new(),
    };
    r
}

/// What the end of the stream (no further event) does: the turn ends.
pub fn stream_ended() -> (r: LoopStep)
    ensures
        r@ == StepView::End,
{
    LoopStep::End
}

/// Fold one streamed event into the streaming state.
pub fn handle_event(
    event: ChatEvent,
    accumulator: ToolCallAccumulator,
    partial_text: MessageBody,
    history: Vec<Message>,
    filter: ChannelFilter,
) -> (r: LoopStep)
    ensures
        r@ == handle_event_spec(event@, accumulator@, partial_text@, messages_view(history@), filter@),
{
    match event {
        ChatEvent::Token(body) => handle_token(&body, accumulator, partial_text, history, filter),
        ChatEvent::ToolCallStart(idx, id, name) => LoopStep::Continue(LoopState::Streaming {
            accumulator: accumulator.add_start(idx, id, name),
            partial_text,
            history,
            filter,
        }),
        ChatEvent::ToolCallArgs(idx, frag) => LoopStep::Continue(LoopState::Streaming {
            accumulator: accumulator.add_args(idx, frag),
            partial_text,
            history,
            filter,
        }),
        ChatEvent::Finished(reason) => handle_finished(reason, accumulator, partial_text, history),
    }
}

/// Pass a token through the marker filter.
fn handle_token(
    body: &MessageBody,
    accumulator: ToolCallAccumulator,
    partial_text: MessageBody,
    history: Vec<Message>,
    filter: ChannelFilter,
) -> (r: LoopStep)
    ensures
        r@ == handle_event_spec(ChatEventView::Token(body@), accumulator@, partial_text@, messages_view(history@), filter@),
{
    let (new_filter, emit_str) = filter.feed(body.as_str());
    if emit_str.as_str().is_empty() {
        LoopStep::Continue(LoopState::Streaming { accumulator, partial_text, history, filter: new_filter })
    } else {
        let visible = MessageBody::from_string(emit_str);
        let new_partial = partial_text.concat(&visible);
        LoopStep::Emit(
            AgentEvent::AssistantToken(visible),
            LoopState::Streaming { accumulator, partial_text: new_partial, history, filter: new_filter },
        )
    }
}

/// Handle the end of a streamed response.
fn handle_finished(
    reason: FinishReason,
    accumulator: ToolCallAccumulator,
    partial_text: MessageBody,
    history: Vec<Message>,
) -> (r: LoopStep)
    ensures
        r@ == handle_event_spec(
            ChatEventView::Finished(reason),
            accumulator@,
            partial_text@,
            messages_view(history@),
            (Seq::empty(), false),
        ),
{
    match reason {
        FinishReason::Stop | FinishReason::Length | FinishReason::ContentFilter => LoopStep::End,
        FinishReason::ToolCalls => {
            let ghost acc = accumulator@;
            let pending_calls = accumulator.finalize();
            let ghost calls = acc.map_values(|e: (u32, PendingView)| e.1);
            assert(pendings_view(pending_calls@) =~= calls);
            let mut wire_calls: Vec<ToolCall> = Vec::new();
            let mut i: usize = 0;
            while i < pending_calls.len()
                invariant
                    i <= pending_calls@.len(),
                    calls_view(wire_calls@) == pendings_view(pending_calls@).subrange(0, i as int),
                decreases pending_calls@.len() - i,
            {
                let ghost before = wire_calls@;
                let w = pending_calls[i].to_wire();
                wire_calls.push(w);
                assert(calls_view(wire_calls@) =~= calls_view(before).push(w@));
                assert(pendings_view(pending_calls@).subrange(0, i + 1) =~= pendings_view(pending_calls@).subrange(0, i as int).push(pending_calls@[i as int]@));
                i = i + 1;
            }
            assert(pendings_view(pending_calls@).subrange(0, i as int) =~= calls);
            let asst_msg = if partial_text.is_empty() {
                Message::assistant_tool_calls(wire_calls)
            } else {
                Message::assistant_text_and_tool_calls(partial_text, wire_calls)
            };
            let ghost h = messages_view(history@);
            let mut history = history;
            history.push(asst_msg);
            assert(messages_view(history@) =~= h.push(asst_msg@));
            transition_to_announce(pending_calls, history)
        },
    }
}

/// Announce the first pending call, or end the turn when there is none.
fn transition_to_announce(pending_calls: Vec<PendingCall>, history: Vec<Message>) -> (r: LoopStep)
    ensures
        r@ == announce_first(pendings_view(pending_calls@), messages_view(history@)),
{
    let mut rest = pending_calls;
    if rest.len() > 0 {
        let ghost all = rest@;
        let first = rest.remove(0);
        assert(pendings_view(rest@) =~= pendings_view(all).drop_first());
        LoopStep::Continue(LoopState::AnnouncedTool { current: first, remaining: rest, history })
    } else {
        LoopStep::End
    }
}

/// Announce `current`: emit `ToolInvoked` with its parsed arguments and move
/// on to dispatching it.
pub fn step_announced(current: PendingCall, remaining: Vec<PendingCall>, history: Vec<Message>) -> (r: LoopStep)
    ensures
        r@ == StepView::Emit(
            AgentEventView::ToolInvoked(current@.1, lossy_args_text(current@.2)),
            LoopView::DispatchTool {
                current: current@,
                remaining: pendings_view(remaining@),
                history: messages_view(history@),
            },
        ),
{
    let args = parse_args_lossy(current.args_buf());
    let event = AgentEvent::ToolInvoked { name: current.name().clone(), args };
    LoopStep::Emit(event, LoopState::DispatchTool { current, remaining, history })
}

/// The tool message answering call `id` with `text`.
pub open spec fn tool_result_message(id: Seq<char>, text: Seq<char>) -> MessageView {
    MessageView { role: Role::Tool, content: Some(text), tool_call_id: Some(id), tool_calls: None }
}

/// After a dispatch: the next pending call is announced, or, when none is
/// left, a fresh request carries the history with all the results.
pub open spec fn after_dispatch_state(remaining: Seq<PendingView>, history: Seq<MessageView>) -> LoopView {
    if remaining.len() > 0 {
        LoopView::AnnouncedTool { current: remaining[0], remaining: remaining.drop_first(), history }
    } else {
        LoopView::FreshRequest { history }
    }
}

/// The text a tool result is recorded under in the history: its JSON
/// serialisation, or `<serialize-error>` when serialising failed.
pub open spec fn result_text(serialized: Option<Seq<char>>) -> Seq<char> {
    match serialized {
        Some(t) => t,
        None => "<serialize-error>"@,
    }
}

/// Complete the dispatch of `current` with the tool's `result`, given its
/// serialisation (`None` when serialising failed): the text is appended to
/// the history as the tool message answering `current`, and `ToolReturned`
/// is emitted.
pub fn record_tool_result(
    current: PendingCall,
    remaining: Vec<PendingCall>,
    history: Vec<Message>,
    result: serde_json::Value,
    serialized: Option<String>,
) -> (r: LoopStep)
    ensures
        r@ == StepView::Emit(
            AgentEventView::ToolReturned(current@.1, json_text_of(result)),
            after_dispatch_state(
                pendings_view(remaining@),
                messages_view(history@).push(
                    tool_result_message(
                        current@.0,
                        result_text(
                            match serialized {
                                Some(t) => Some(t@),
                                None => None,
                            },
                        ),
                    ),
                ),
            ),
        ),
{
    let body = match serialized {
        Some(s) => s,
        None => "<serialize-error>".to_owned(),
    };
    let ghost text = body@;
    let tool_msg = Message::tool(current.id().clone(), MessageBody::from_string(body));
    let ghost h = messages_view(history@);
    let mut history = history;
    history.push(tool_msg);
    assert(messages_view(history@) =~= h.push(tool_result_message(current@.0, text)));
    let event = AgentEvent::ToolReturned { name: current.name().clone(), result };
    transition_after_dispatch(&remaining, history, event)
}

/// What a failed tool call hands back as its result: `{"error": message}`.
pub fn tool_failure_value(message: String) -> (r: serde_json::Value)
    ensures
        json_text_of(r) == json_string_object("error"@, message@),
{
    json_object_string("error".to_owned(), message)
}

/// The result a tool call is recorded with: what the tool returned, or, when
/// it failed, `{"error": ..}` holding the error's debug rendering.
pub fn tool_result_value(outcome: Result<serde_json::Value, RigCatError>) -> (r: serde_json::Value)
    ensures
        outcome matches Ok(v) ==> r == v,
        outcome is Err ==> exists|m: Seq<char>| json_text_of(r) == json_string_object("error"@, m),
{
    match outcome {
        Ok(v) => v,
        Err(e) => tool_failure_value(rig_cat_error_debug(&e)),
    }
}

/// Complete the dispatch of `current` with the tool's `result`: the
/// result's JSON text is appended to the history as the tool message
/// answering `current`, and `ToolReturned` is emitted (see
/// `record_tool_result`).
pub fn step_dispatched(
    current: PendingCall,
    remaining: Vec<PendingCall>,
    history: Vec<Message>,
    result: serde_json::Value,
) -> (r: LoopStep)
    ensures
        r@ == StepView::Emit(
            AgentEventView::ToolReturned(current@.1, json_text_of(result)),
            after_dispatch_state(
                pendings_view(remaining@),
                messages_view(history@).push(tool_result_message(current@.0, json_text_of(result))),
            ),
        ),
{
    let serialized = match json_to_string(&result) {
        Ok(s) => Some(s),
        Err(_) => None,
    };
    record_tool_result(current, remaining, history, result, serialized)
}

/// Move to the next pending call, or to a fresh request when none is left.
fn transition_after_dispatch(remaining: &Vec<PendingCall>, history: Vec<Message>, event: AgentEvent) -> (r: LoopStep)
    ensures
        r@ == StepView::Emit(event@, after_dispatch_state(pendings_view(remaining@), messages_view(history@))),
{
    if remaining.len() > 0 {
        let next = remaining[0].clone();
        let mut rest: Vec<PendingCall> = Vec::new();
        let mut i: usize = 1;
        while i < remaining.len()
            invariant
                1 <= i <= remaining@.len(),
                pendings_view(rest@) == pendings_view(remaining@).subrange(1, i as int),
            decreases remaining@.len() - i,
        {
            let ghost before = rest@;
            let c = remaining[i].clone();
            rest.push(c);
            assert(pendings_view(rest@) =~= pendings_view(before).push(c@));
            assert(pendings_view(remaining@).subrange(1, i + 1) =~= pendings_view(remaining@).subrange(1, i as int).push(remaining@[i as int]@));
            i = i + 1;
        }
        assert(pendings_view(remaining@).subrange(1, i as int) =~= pendings_view(remaining@).drop_first());
        LoopStep::Emit(event, LoopState::AnnouncedTool { current: next, remaining: rest, history })
    } else {
        LoopStep::Emit(event, LoopState::FreshRequest { history })
    }
}

/// The visible text of a turn is exactly what was emitted: a token step
/// either emits nothing and keeps the text, or emits some text and appends
/// exactly it.
pub proof fn lemma_token_text_is_emitted(
    t: Seq<char>,
    acc: AccumulatorView,
    partial: Seq<char>,
    history: Seq<MessageView>,
    filter: (Seq<char>, bool),
)
    ensures
        match handle_event_spec(ChatEventView::Token(t), acc, partial, history, filter) {
            StepView::Continue(LoopView::Streaming { partial_text, accumulator, history: h, .. }) =>
                partial_text == partial && accumulator == acc && h == history,
            StepView::Emit(AgentEventView::AssistantToken(out), LoopView::Streaming { partial_text, accumulator, history: h, .. }) =>
                out.len() > 0 && partial_text == partial + out && accumulator == acc && h == history,
            _ => false,
        },
{
}

/// A finish for tool calls appends one assistant message listing every
/// accumulated call in stream order, and announces the first of them.
pub proof fn lemma_tool_calls_recorded_in_order(
    acc: AccumulatorView,
    partial: Seq<char>,
    history: Seq<MessageView>,
    filter: (Seq<char>, bool),
)
    requires
        acc.len() > 0,
    ensures
        ({
            let calls = acc.map_values(|e: (u32, PendingView)| e.1);
            let h = history.push(tool_request_message(partial, calls));
            &&& handle_event_spec(ChatEventView::Finished(FinishReason::ToolCalls), acc, partial, history, filter)
                == StepView::Continue(LoopView::AnnouncedTool { current: acc[0].1, remaining: calls.drop_first(), history: h })
            &&& h.len() == history.len() + 1
            &&& h.last().tool_calls == Some(calls)
            &&& forall|i: int| 0 <= i < acc.len() ==> #[trigger] calls[i] == acc[i].1
        }),
{
}

/// The calls a loop state still has to run, in the order it will run them:
/// the one being announced or dispatched, then those after it.
pub open spec fn calls_to_run(v: LoopView) -> Seq<PendingView> {
    match v {
        LoopView::AnnouncedTool { current, remaining, history } => seq![current] + remaining,
        LoopView::DispatchTool { current, remaining, history } => seq![current] + remaining,
        _ => Seq::empty(),
    }
}

/// The history a loop state carries.
pub open spec fn history_of(v: LoopView) -> Seq<MessageView> {
    match v {
        LoopView::FreshRequest { history } => history,
        LoopView::Streaming { accumulator, partial_text, history, filter } => history,
        LoopView::AnnouncedTool { current, remaining, history } => history,
        LoopView::DispatchTool { current, remaining, history } => history,
        LoopView::Done => Seq::empty(),
    }
}

/// Every requested call is run, once and in order: after a dispatch, the
/// calls still to run are exactly the remaining ones, in the same order,
/// so each dispatch takes exactly one call off the front.  When none
/// remain, the loop goes back to the server with the history.
pub proof fn lemma_dispatch_runs_rest_in_order(remaining: Seq<PendingView>, history: Seq<MessageView>)
    ensures
        calls_to_run(after_dispatch_state(remaining, history)) == remaining,
        history_of(after_dispatch_state(remaining, history)) == history,
        remaining.len() == 0 ==> (after_dispatch_state(remaining, history) == (LoopView::FreshRequest { history })),
        remaining.len() > 0 ==> (after_dispatch_state(remaining, history) is AnnouncedTool),
{
    if remaining.len() > 0 {
        assert(seq![remaining[0]] + remaining.drop_first() =~= remaining);
    }
}

/// Announcing a call moves it to dispatch with the same calls still to
/// run: no call is dropped or reordered between announcing and running.
pub proof fn lemma_announce_keeps_calls(current: PendingView, remaining: Seq<PendingView>, history: Seq<MessageView>)
    ensures
        calls_to_run((LoopView::AnnouncedTool { current, remaining, history })) == calls_to_run(
            (LoopView::DispatchTool { current, remaining, history }),
        ),
{
}

/// The calls a tool-calls finish asks for are all queued, in stream order:
/// the calls still to run after the finish are the accumulated calls.
pub proof fn lemma_finish_queues_all_calls(
    acc: AccumulatorView,
    partial: Seq<char>,
    history: Seq<MessageView>,
    filter: (Seq<char>, bool),
)
    requires
        acc.len() > 0,
    ensures
        (handle_event_spec(ChatEventView::Finished(FinishReason::ToolCalls), acc, partial, history, filter) matches StepView::Continue(v)
            && calls_to_run(v) == acc.map_values(|e: (u32, PendingView)| e.1)
            && history_of(v).len() == history.len() + 1),
{
    let calls = acc.map_values(|e: (u32, PendingView)| e.1);
    assert(seq![calls[0]] + calls.drop_first() =~= calls);
}

} // verus!
