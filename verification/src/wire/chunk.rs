//! `ChatCompletionChunk`: the shape of one SSE `data:` line of a streaming
//! chat-completion response.  A chunk is lowered into a sequence of
//! `ChatEvent`s so the stream can emit one event per step.

use vstd::prelude::*;
use crate::agent::event::{ChatEvent, ChatEventView};
use crate::error::{Error, WireError};
use crate::newtype::{FinishReason, MessageBody, ToolCallId, ToolCallIndex, ToolName};
use crate::text::str_is;
use crate::wire::message::ToolCallKind;

verus! {

/// The finish reason that a `finish_reason` string names, if any.
pub open spec fn finish_reason_of(s: Seq<char>) -> Option<FinishReason> {
    if s == seq!['s', 't', 'o', 'p'] {
        Some(FinishReason::Stop)
    } else if s == seq!['l', 'e', 'n', 'g', 't', 'h'] {
        Some(FinishReason::Length)
    } else if s == seq!['c', 'o', 'n', 't', 'e', 'n', 't', '_', 'f', 'i', 'l', 't', 'e', 'r'] {
        Some(FinishReason::ContentFilter)
    } else if s == seq!['t', 'o', 'o', 'l', '_', 'c', 'a', 'l', 'l', 's'] {
        Some(FinishReason::ToolCalls)
    } else {
        None
    }
}

/// The `function` object inside a tool-call delta.
#[derive(Debug)]
pub struct ChunkToolCallFunction {
    name: Option<ToolName>,
    arguments: Option<String>,
}

/// One element of `delta.tool_calls[]`.  Every field but the index is
/// optional: the first delta of a call carries `id` and `function.name`,
/// later ones only `function.arguments` fragments under the same index.
#[derive(Debug)]
pub struct ChunkToolCall {
    index: u32,
    id: Option<ToolCallId>,
    kind: Option<ToolCallKind>,
    function: Option<ChunkToolCallFunction>,
}

/// A tool-call delta seen as plain data: index, id, function name and
/// arguments fragment.
pub struct ChunkToolCallView {
    pub index: u32,
    pub id: Option<Seq<char>>,
    pub name: Option<Seq<char>>,
    pub arguments: Option<Seq<char>>,
}

impl View for ChunkToolCall {
    type V = ChunkToolCallView;

    closed spec fn view(&self) -> ChunkToolCallView {
        ChunkToolCallView {
            index: self.index,
            id: match self.id {
                Some(i) => Some(i@),
                None => None,
            },
            name: match self.function {
                Some(f) => match f.name {
                    Some(n) => Some(n@),
                    None => None,
                },
                None => None,
            },
            arguments: match self.function {
                Some(f) => match f.arguments {
                    Some(a) => Some(a@),
                    None => None,
                },
                None => None,
            },
        }
    }
}

/// The events one tool-call delta lowers to: a start when it carries both an
/// id and a name, then an arguments fragment when it carries a non-empty one.
pub open spec fn tool_call_events(t: ChunkToolCallView) -> Seq<ChatEventView> {
    let start = match (t.id, t.name) {
        (Some(id), Some(name)) => seq![ChatEventView::ToolCallStart(t.index, id, name)],
        _ => Seq::empty(),
    };
    let args = match t.arguments {
        Some(a) => if a.len() > 0 {
            seq![ChatEventView::ToolCallArgs(t.index, a)]
        } else {
            Seq::empty()
        },
        None => Seq::empty(),
    };
    start + args
}

/// The events of a sequence of tool-call deltas, in order.
pub open spec fn tool_calls_events(ts: Seq<ChunkToolCallView>) -> Seq<ChatEventView>
    decreases ts.len(),
{
    if ts.len() == 0 {
        Seq::empty()
    } else {
        tool_calls_events(ts.drop_last()) + tool_call_events(ts.last())
    }
}

/// A complete tool-call delta (id, name and a non-empty arguments fragment)
/// lowers to a start for its slot followed by that fragment.
pub proof fn lemma_complete_delta_events(t: ChunkToolCallView, id: Seq<char>, name: Seq<char>, args: Seq<char>)
    requires
        t.id == Some(id),
        t.name == Some(name),
        t.arguments == Some(args),
        args.len() > 0,
    ensures
        tool_call_events(t) == seq![
            ChatEventView::ToolCallStart(t.index, id, name),
            ChatEventView::ToolCallArgs(t.index, args),
        ],
{
    assert(tool_call_events(t) =~= seq![
        ChatEventView::ToolCallStart(t.index, id, name),
        ChatEventView::ToolCallArgs(t.index, args),
    ]);
}

/// Tool-call deltas lower in the order the delta lists them: the events of
/// two runs of deltas, one after the other, are the events of the first run
/// followed by those of the second.
pub proof fn lemma_tool_call_deltas_in_order(a: Seq<ChunkToolCallView>, b: Seq<ChunkToolCallView>)
    ensures
        tool_calls_events(a + b) == tool_calls_events(a) + tool_calls_events(b),
    decreases b.len(),
{
    if b.len() == 0 {
        assert(a + b =~= a);
        assert(tool_calls_events(b) =~= Seq::<ChatEventView>::empty());
        assert(tool_calls_events(a) + tool_calls_events(b) =~= tool_calls_events(a));
    } else {
        let b0 = b.drop_last();
        lemma_tool_call_deltas_in_order(a, b0);
        assert((a + b).drop_last() =~= a + b0);
        assert((a + b).last() == b.last());
        assert(tool_calls_events(a) + tool_calls_events(b) =~= tool_calls_events(a) + tool_calls_events(b0)
            + tool_call_events(b.last()));
    }
}

/// The events of a single delta are its own events.
pub proof fn lemma_one_delta_events(t: ChunkToolCallView)
    ensures
        tool_calls_events(seq![t]) == tool_call_events(t),
{
    let e = Seq::<ChunkToolCallView>::empty();
    assert(seq![t].drop_last() =~= e);
    assert(tool_calls_events(e) == Seq::<ChatEventView>::empty());
    assert(tool_calls_events(seq![t]) == tool_calls_events(e) + tool_call_events(t));
    assert(Seq::<ChatEventView>::empty() + tool_call_events(t) =~= tool_call_events(t));
}

/// Parallel tool calls in one delta come out in stream order: a choice
/// whose delta holds two complete calls, and no content or finish reason,
/// lowers to the first call's start and arguments, then the second's.
pub proof fn lemma_parallel_calls_in_stream_order(
    c: ChunkChoiceView,
    t0: ChunkToolCallView,
    t1: ChunkToolCallView,
    id0: Seq<char>,
    name0: Seq<char>,
    args0: Seq<char>,
    id1: Seq<char>,
    name1: Seq<char>,
    args1: Seq<char>,
)
    requires
        c.tool_calls == seq![t0, t1],
        c.content is None,
        c.finish_reason is None,
        t0.id == Some(id0),
        t0.name == Some(name0),
        t0.arguments == Some(args0),
        args0.len() > 0,
        t1.id == Some(id1),
        t1.name == Some(name1),
        t1.arguments == Some(args1),
        args1.len() > 0,
    ensures
        choice_events(c) == Ok::<Seq<ChatEventView>, Seq<char>>(
            seq![
                ChatEventView::ToolCallStart(t0.index, id0, name0),
                ChatEventView::ToolCallArgs(t0.index, args0),
                ChatEventView::ToolCallStart(t1.index, id1, name1),
                ChatEventView::ToolCallArgs(t1.index, args1),
            ],
        ),
{
    assert(seq![t0, t1] =~= seq![t0] + seq![t1]);
    lemma_tool_call_deltas_in_order(seq![t0], seq![t1]);
    lemma_one_delta_events(t0);
    lemma_one_delta_events(t1);
    lemma_complete_delta_events(t0, id0, name0, args0);
    lemma_complete_delta_events(t1, id1, name1, args1);
    let tools = tool_calls_events(c.tool_calls);
    assert(tools + Seq::<ChatEventView>::empty() =~= seq![
        ChatEventView::ToolCallStart(t0.index, id0, name0),
        ChatEventView::ToolCallArgs(t0.index, args0),
        ChatEventView::ToolCallStart(t1.index, id1, name1),
        ChatEventView::ToolCallArgs(t1.index, args1),
    ]);
}

/// The `delta` object inside a chunk choice.
#[derive(Debug)]
pub struct ChunkDelta {
    content: Option<MessageBody>,
    tool_calls: Option<Vec<ChunkToolCall>>,
}

/// One element of `chunk.choices[]`.
#[derive(Debug)]
pub struct ChunkChoice {
    delta: ChunkDelta,
    finish_reason: Option<String>,
}

/// A choice seen as plain data.
pub struct ChunkChoiceView {
    pub content: Option<Seq<char>>,
    pub tool_calls: Seq<ChunkToolCallView>,
    pub finish_reason: Option<Seq<char>>,
}

impl View for ChunkChoice {
    type V = ChunkChoiceView;

    closed spec fn view(&self) -> ChunkChoiceView {
        ChunkChoiceView {
            content: match self.delta.content {
                Some(b) => Some(b@),
                None => None,
            },
            tool_calls: match self.delta.tool_calls {
                Some(v) => v@.map_values(|t: ChunkToolCall| t@),
                None => Seq::empty(),
            },
            finish_reason: match self.finish_reason {
                Some(s) => Some(s@),
                None => None,
            },
        }
    }
}

/// What a choice lowers to: its events (tool-call deltas first, then the
/// content token, then the finish reason), or the finish-reason string that
/// is not recognized.
pub open spec fn choice_events(c: ChunkChoiceView) -> Result<Seq<ChatEventView>, Seq<char>> {
    let tools = tool_calls_events(c.tool_calls);
    let content = match c.content {
        Some(b) => seq![ChatEventView::Token(b)],
        None => Seq::empty(),
    };
    match c.finish_reason {
        Some(s) => match finish_reason_of(s) {
            Some(r) => Ok(tools + content + seq![ChatEventView::Finished(r)]),
            None => Err(s),
        },
        None => Ok(tools + content),
    }
}

/// What a sequence of choices lowers to: the events of each in order, or the
/// first unrecognized finish-reason string.
pub open spec fn choices_events(cs: Seq<ChunkChoiceView>) -> Result<Seq<ChatEventView>, Seq<char>>
    decreases cs.len(),
{
    if cs.len() == 0 {
        Ok(Seq::empty())
    } else {
        match choices_events(cs.drop_last()) {
            Ok(before) => match choice_events(cs.last()) {
                Ok(evs) => Ok(before + evs),
                Err(s) => Err(s),
            },
            Err(s) => Err(s),
        }
    }
}

/// One SSE chunk of the streaming Chat Completions API.
#[derive(Debug)]
pub struct ChatCompletionChunk {
    choices: Vec<ChunkChoice>,
}

impl View for ChatCompletionChunk {
    type V = Seq<ChunkChoiceView>;

    closed spec fn view(&self) -> Seq<ChunkChoiceView> {
        self.choices@.map_values(|c: ChunkChoice| c@)
    }
}

/// The views of a sequence of events.
pub open spec fn events_view(evs: Seq<ChatEvent>) -> Seq<ChatEventView> {
    evs.map_values(|e: ChatEvent| e@)
}

impl ChunkToolCallFunction {
    /// A `function` object with an optional name and arguments fragment.
    pub fn new(name: Option<ToolName>, arguments: Option<String>) -> (r: Self)
        ensures
            r.name_view() == (match name {
                Some(n) => Some(n@),
                None => None,
            }),
            r.arguments_view() == (match arguments {
                Some(a) => Some(a@),
                None => None,
            }),
    {
        ChunkToolCallFunction { name, arguments }
    }

    /// The name, seen as text.
    pub closed spec fn name_view(&self) -> Option<Seq<char>> {
        match self.name {
            Some(n) => Some(n@),
            None => None,
        }
    }

    /// The arguments fragment, seen as text.
    pub closed spec fn arguments_view(&self) -> Option<Seq<char>> {
        match self.arguments {
            Some(a) => Some(a@),
            None => None,
        }
    }
}

impl ChunkToolCall {
    /// A tool-call delta.
    pub fn new(
        index: u32,
        id: Option<ToolCallId>,
        kind: Option<ToolCallKind>,
        function: Option<ChunkToolCallFunction>,
    ) -> (r: Self)
        ensures
            r@.index == index,
            r@.id == (match id {
                Some(i) => Some(i@),
                None => None,
            }),
            r@.name == (match function {
                Some(f) => f.name_view(),
                None => None,
            }),
            r@.arguments == (match function {
                Some(f) => f.arguments_view(),
                None => None,
            }),
    {
        ChunkToolCall { index, id, kind, function }
    }

    /// Lower this delta into events.
    fn into_events(self) -> (r: Vec<ChatEvent>)
        ensures
            events_view(r@) == tool_call_events(self@),
    {
        let ghost v = self@;
        let ChunkToolCall { index, id, kind: _, function } = self;
        let idx = ToolCallIndex::new(index);
        let (name_opt, args_opt) = match function {
            Some(f) => (f.name, f.arguments),
            None => (None, None),
        };
        let mut out: Vec<ChatEvent> = Vec::new();
        match (id, name_opt) {
            (Some(id_val), Some(name)) => {
                out.push(ChatEvent::ToolCallStart(idx, id_val, name));
            },
            _ => {},
        }
        match args_opt {
            Some(a) => {
                if !a.as_str().is_empty() {
                    out.push(ChatEvent::ToolCallArgs(idx, MessageBody::from_string(a)));
                }
            },
            None => {},
        }
        assert(events_view(out@) =~= tool_call_events(v));
        out
    }
}

impl ChunkDelta {
    /// A `delta` object with optional content and tool-call deltas.
    pub fn new(content: Option<MessageBody>, tool_calls: Option<Vec<ChunkToolCall>>) -> (r: Self)
        ensures
            r.content_view() == (match content {
                Some(b) => Some(b@),
                None => None,
            }),
            r.tool_calls_view() == (match tool_calls {
                Some(v) => v@.map_values(|t: ChunkToolCall| t@),
                None => Seq::empty(),
            }),
    {
        ChunkDelta { content, tool_calls }
    }

    /// The content, seen as text.
    pub closed spec fn content_view(&self) -> Option<Seq<char>> {
        match self.content {
            Some(b) => Some(b@),
            None => None,
        }
    }

    /// The tool-call deltas, seen as plain data (none when absent).
    pub closed spec fn tool_calls_view(&self) -> Seq<ChunkToolCallView> {
        match self.tool_calls {
            Some(v) => v@.map_values(|t: ChunkToolCall| t@),
            None => Seq::empty(),
        }
    }
}

/// The recognized finish reason that `s` names.
fn parse_finish_reason(s: &str) -> (r: Option<FinishReason>)
    ensures
        r == finish_reason_of(s@),
{
    let stop = vec!['s', 't', 'o', 'p'];
    let length = vec!['l', 'e', 'n', 'g', 't', 'h'];
    let filter = vec!['c', 'o', 'n', 't', 'e', 'n', 't', '_', 'f', 'i', 'l', 't', 'e', 'r'];
    let tools = vec!['t', 'o', 'o', 'l', '_', 'c', 'a', 'l', 'l', 's'];
    proof {
        assert(stop@ =~= seq!['s', 't', 'o', 'p']);
        assert(length@ =~= seq!['l', 'e', 'n', 'g', 't', 'h']);
        assert(filter@ =~= seq!['c', 'o', 'n', 't', 'e', 'n', 't', '_', 'f', 'i', 'l', 't', 'e', 'r']);
        assert(tools@ =~= seq!['t', 'o', 'o', 'l', '_', 'c', 'a', 'l', 'l', 's']);
    }
    if str_is(s, stop.as_slice()) {
        Some(FinishReason::Stop)
    } else if str_is(s, length.as_slice()) {
        Some(FinishReason::Length)
    } else if str_is(s, filter.as_slice()) {
        Some(FinishReason::ContentFilter)
    } else if str_is(s, tools.as_slice()) {
        Some(FinishReason::ToolCalls)
    } else {
        None
    }
}

/// Move the events of `more` to the end of `out`.
fn append_events(out: &mut Vec<ChatEvent>, more: Vec<ChatEvent>)
    ensures
        events_view(final(out)@) == events_view(old(out)@) + events_view(more@),
{
    let mut more = more;
    let ghost start = out@;
    let ghost m = more@;
    out.append(&mut more);
    assert(events_view(out@) =~= events_view(start) + events_view(m));
}

impl ChunkChoice {
    /// A choice with its delta and optional finish reason.
    pub fn new(delta: ChunkDelta, finish_reason: Option<String>) -> (r: Self)
        ensures
            r@.content == delta.content_view(),
            r@.tool_calls == delta.tool_calls_view(),
            r@.finish_reason == (match finish_reason {
                Some(s) => Some(s@),
                None => None,
            }),
    {
        ChunkChoice { delta, finish_reason }
    }

    /// Lower this choice into events.
    fn into_events(self) -> (r: Result<Vec<ChatEvent>, Error>)
        ensures
            match choice_events(self@) {
                Ok(evs) => r matches Ok(v) && events_view(v@) == evs,
                Err(s) => r matches Err(Error::Wire(WireError::UnknownFinishReason(t))) && t@ == s,
            },
    {
        let ghost v = self@;
        let ChunkChoice { delta, finish_reason } = self;
        let ChunkDelta { content, tool_calls } = delta;
        let calls: Vec<ChunkToolCall> = match tool_calls {
            Some(c) => c,
            None => Vec::new(),
        };
        assert(calls@.map_values(|t: ChunkToolCall| t@) =~= v.tool_calls);
        let mut out: Vec<ChatEvent> = Vec::new();
        let mut calls = calls;
        let ghost orig = calls@;
        let mut done: usize = 0;
        let total = calls.len();
        assert(orig.subrange(0, 0).map_values(|t: ChunkToolCall| t@) =~= Seq::<ChunkToolCallView>::empty());
        assert(events_view(out@) =~= Seq::<ChatEventView>::empty());
        while calls.len() > 0
            invariant
                calls@ == orig.subrange(done as int, orig.len() as int),
                done <= orig.len(),
                orig.len() == total,
                events_view(out@) == tool_calls_events(orig.subrange(0, done as int).map_values(|t: ChunkToolCall| t@)),
            decreases calls@.len(),
        {
            let t = calls.remove(0);
            proof {
                assert(t == orig[done as int]);
                let pre = orig.subrange(0, done as int).map_values(|t: ChunkToolCall| t@);
                let post = orig.subrange(0, done + 1).map_values(|t: ChunkToolCall| t@);
                assert(post.drop_last() =~= pre);
                assert(post.last() == t@);
                assert(calls@ =~= orig.subrange(done + 1, orig.len() as int));
            }
            let evs = t.into_events();
            append_events(&mut out, evs);
            done = done + 1;
        }
        assert(orig.subrange(0, done as int) =~= orig);
        match content {
            Some(b) => {
                let ghost before = out@;
                out.push(ChatEvent::Token(b));
                assert(events_view(out@) =~= events_view(before) + seq![ChatEventView::Token(b@)]);
            },
            None => {},
        }
        match finish_reason {
            Some(s) => {
                match parse_finish_reason(s.as_str()) {
                    Some(reason) => {
                        let ghost before = out@;
                        out.push(ChatEvent::Finished(reason));
                        assert(events_view(out@) =~= events_view(before) + seq![ChatEventView::Finished(reason)]);
                        Ok(out)
                    },
                    None => Err(Error::Wire(WireError::UnknownFinishReason(s))),
                }
            },
            None => Ok(out),
        }
    }
}

impl ChatCompletionChunk {
    /// A chunk with the given choices.
    pub fn new(choices: Vec<ChunkChoice>) -> (r: Self)
        ensures
            r@ == choices@.map_values(|c: ChunkChoice| c@),
    {
        ChatCompletionChunk { choices }
    }

    /// Project the chunk into zero or more `ChatEvent`s, choice by choice.
    /// Within a choice: tool-call deltas first, then the content delta, then
    /// the finish reason.
    ///
    /// Fails with `Error::Wire(WireError::UnknownFinishReason(_))` exactly
    /// when some `finish_reason` carries a string that is not recognized,
    /// naming the first such string.
    pub fn into_events(self) -> (r: Result<Vec<ChatEvent>, Error>)
        ensures
            match choices_events(self@) {
                Ok(evs) => r matches Ok(v) && events_view(v@) == evs,
                Err(s) => r matches Err(Error::Wire(WireError::UnknownFinishReason(t))) && t@ == s,
            },
    {
        let ghost sv = self@;
        let mut choices = self.choices;
        let ghost orig = choices@;
        assert(orig.map_values(|c: ChunkChoice| c@) =~= sv);
        let mut out: Vec<ChatEvent> = Vec::new();
        let mut done: usize = 0;
        let total = choices.len();
        assert(orig.subrange(0, 0).map_values(|c: ChunkChoice| c@) =~= Seq::<ChunkChoiceView>::empty());
        assert(events_view(out@) =~= Seq::<ChatEventView>::empty());
        while choices.len() > 0
            invariant
                choices@ == orig.subrange(done as int, orig.len() as int),
                done <= orig.len(),
                orig.len() == total,
                orig.map_values(|c: ChunkChoice| c@) == sv,
                sv == self@,
                choices_events(orig.subrange(0, done as int).map_values(|c: ChunkChoice| c@)) == Ok::<Seq<ChatEventView>, Seq<char>>(events_view(out@)),
            decreases choices@.len(),
        {
            let c = choices.remove(0);
            let ghost pre = orig.subrange(0, done as int).map_values(|c: ChunkChoice| c@);
            let ghost post = orig.subrange(0, done + 1).map_values(|c: ChunkChoice| c@);
            proof {
                assert(c == orig[done as int]);
                assert(post.drop_last() =~= pre);
                assert(post.last() == c@);
                assert(choices@ =~= orig.subrange(done + 1, orig.len() as int));
            }
            let res = c.into_events();
            match res {
                Ok(evs) => {
                    append_events(&mut out, evs);
                },
                Err(e) => {
                    proof {
                        assert(orig.map_values(|c: ChunkChoice| c@).subrange(0, done + 1) =~= post);
                        assert(choices_events(post) == choice_events(c@));
                        lemma_choices_events_prefix_err(orig.map_values(|c: ChunkChoice| c@), done as int + 1);
                    }
                    return Err(e);
                },
            }
            done = done + 1;
        }
        assert(orig.subrange(0, done as int) =~= orig);
        Ok(out)
    }
}

/// An unrecognized finish reason in a prefix of the choices is the answer
/// for all of them.
proof fn lemma_choices_events_prefix_err(cs: Seq<ChunkChoiceView>, k: int)
    requires
        0 <= k <= cs.len(),
        choices_events(cs.subrange(0, k)) is Err,
    ensures
        choices_events(cs) == choices_events(cs.subrange(0, k)),
    decreases cs.len() - k,
{
    if k < cs.len() {
        assert(cs.subrange(0, k + 1).drop_last() =~= cs.subrange(0, k));
        lemma_choices_events_prefix_err(cs, k + 1);
    } else {
        assert(cs.subrange(0, k) =~= cs);
    }
}

/// A chunk lowers choice by choice, in order: when both runs of choices
/// lower without error, the events of the two runs together are the events
/// of the first run followed by those of the second.
pub proof fn lemma_choices_in_order(a: Seq<ChunkChoiceView>, b: Seq<ChunkChoiceView>)
    requires
        choices_events(a) is Ok,
        choices_events(b) is Ok,
    ensures
        choices_events(a + b) == Ok::<Seq<ChatEventView>, Seq<char>>(
            choices_events(a)->Ok_0 + choices_events(b)->Ok_0,
        ),
    decreases b.len(),
{
    if b.len() == 0 {
        assert(a + b =~= a);
        assert(choices_events(a)->Ok_0 + choices_events(b)->Ok_0 =~= choices_events(a)->Ok_0);
    } else {
        let b0 = b.drop_last();
        assert(choices_events(b0) is Ok);
        lemma_choices_in_order(a, b0);
        assert((a + b).drop_last() =~= a + b0);
        assert((a + b).last() == b.last());
        let x = choices_events(a)->Ok_0;
        let y0 = choices_events(b0)->Ok_0;
        let z = choice_events(b.last())->Ok_0;
        assert(x + (y0 + z) =~= x + y0 + z);
    }
}

/// A chunk of one choice lowers to that choice's events.
pub proof fn lemma_one_choice(c: ChunkChoiceView)
    ensures
        choices_events(seq![c]) == choice_events(c),
{
    let e = Seq::<ChunkChoiceView>::empty();
    assert(seq![c].drop_last() =~= e);
    assert(choices_events(e) == Ok::<Seq<ChatEventView>, Seq<char>>(Seq::empty()));
    match choice_events(c) {
        Ok(evs) => {
            assert(Seq::<ChatEventView>::empty() + evs =~= evs);
        },
        Err(_) => {},
    }
}

} // verus!
