//! The line-level SSE grammar used by streaming chat completions: a
//! `data:` line carries a JSON chunk or the `[DONE]` sentinel; blank lines,
//! comments and other fields are skipped.

use vstd::prelude::*;
use crate::agent::event::{ChatEvent, ChatEventView};
use crate::text::{char_is_whitespace, chars_of, string_of_range, unicode_white_space};
use crate::wire::chunk::events_view;

verus! {

/// The `data:` field name.
pub open spec fn data_prefix() -> Seq<char> {
    seq!['d', 'a', 't', 'a', ':']
}

/// The sentinel that ends the stream.
pub open spec fn done_sentinel() -> Seq<char> {
    seq!['[', 'D', 'O', 'N', 'E', ']']
}

/// The end of `s[..e]` once trailing line feeds and carriage returns are
/// trimmed.
pub open spec fn end_without_newlines(s: Seq<char>, e: int) -> int
    decreases e,
{
    if e > 0 && (s[e - 1] == '\n' || s[e - 1] == '\r') {
        end_without_newlines(s, e - 1)
    } else {
        e
    }
}

/// The start of `s[k..e]` once leading whitespace is trimmed.
pub open spec fn start_without_space(s: Seq<char>, k: int, e: int) -> int
    decreases e - k,
{
    if k < e && unicode_white_space(s[k]) {
        start_without_space(s, k + 1, e)
    } else {
        k
    }
}

/// A classified line.
pub enum LineKindView {
    Done,
    Data(Seq<char>),
    SkipLine,
}

/// How a line is read: trailing line breaks are trimmed; an empty line is
/// skipped; a `data:` line whose payload (leading whitespace trimmed) is
/// `[DONE]` ends the stream, any other payload is a chunk; everything else
/// is skipped.
pub open spec fn classify_spec(line: Seq<char>) -> LineKindView {
    let e = end_without_newlines(line, line.len() as int);
    if e == 0 {
        LineKindView::SkipLine
    } else if e >= 5 && line.subrange(0, 5) == data_prefix() {
        let k = start_without_space(line, 5, e);
        let payload = line.subrange(k, e);
        if payload == done_sentinel() {
            LineKindView::Done
        } else {
            LineKindView::Data(payload)
        }
    } else {
        LineKindView::SkipLine
    }
}

/// Classification of one SSE line.
#[derive(Debug)]
pub enum LineKind {
    /// `data: [DONE]`: the stream is finished.
    Done,
    /// `data: <payload>`: a JSON chunk, not yet parsed.
    Data(String),
    /// Blank line, SSE comment, or another field; read on.
    SkipLine,
}

impl View for LineKind {
    type V = LineKindView;

    open spec fn view(&self) -> LineKindView {
        match self {
            LineKind::Done => LineKindView::Done,
            LineKind::Data(s) => LineKindView::Data(s@),
            LineKind::SkipLine => LineKindView::SkipLine,
        }
    }
}

proof fn lemma_end_bounds(s: Seq<char>, e: int)
    requires
        0 <= e <= s.len(),
    ensures
        0 <= end_without_newlines(s, e) <= e,
    decreases e,
{
    if e > 0 && (s[e - 1] == '\n' || s[e - 1] == '\r') {
        lemma_end_bounds(s, e - 1);
    }
}

proof fn lemma_start_bounds(s: Seq<char>, k: int, e: int)
    requires
        0 <= k <= e <= s.len(),
    ensures
        k <= start_without_space(s, k, e) <= e,
    decreases e - k,
{
    if k < e && unicode_white_space(s[k]) {
        lemma_start_bounds(s, k + 1, e);
    }
}

/// Classify one line read from the body.
pub fn classify(line: &str) -> (r: LineKind)
    ensures
        r@ == classify_spec(line@),
{
    let cs = chars_of(line);
    let n = cs.len();
    let mut e = n;
    while e > 0 && (cs[e - 1] == '\n' || cs[e - 1] == '\r')
        invariant
            e <= n,
            n == cs@.len(),
            end_without_newlines(cs@, n as int) == end_without_newlines(cs@, e as int),
        decreases e,
    {
        e = e - 1;
    }
    if e == 0 {
        return LineKind::SkipLine;
    }
    let is_data = e >= 5 && cs[0] == 'd' && cs[1] == 'a' && cs[2] == 't' && cs[3] == 'a' && cs[4] == ':';
    proof {
        if e >= 5 {
            assert(is_data == (cs@.subrange(0, 5) =~= data_prefix()));
        }
    }
    if !is_data {
        return LineKind::SkipLine;
    }
    let mut k: usize = 5;
    while k < e && char_is_whitespace(cs[k])
        invariant
            5 <= k <= e <= n,
            n == cs@.len(),
            start_without_space(cs@, 5, e as int) == start_without_space(cs@, k as int, e as int),
        decreases e - k,
    {
        k = k + 1;
    }
    let is_done = e - k == 6 && cs[k] == '[' && cs[k + 1] == 'D' && cs[k + 2] == 'O' && cs[k + 3] == 'N'
        && cs[k + 4] == 'E' && cs[k + 5] == ']';
    proof {
        if e - k == 6 {
            assert(is_done == (cs@.subrange(k as int, e as int) =~= done_sentinel()));
        } else {
            assert(cs@.subrange(k as int, e as int).len() != done_sentinel().len());
        }
    }
    if is_done {
        LineKind::Done
    } else {
        LineKind::Data(string_of_range(cs.as_slice(), k, e))
    }
}

/// What one step of the event stream does next.
pub enum SseStep {
    /// Hand out this event; the rest stay buffered.
    Emit(ChatEvent, Vec<ChatEvent>),
    /// The reader was cancelled: the stream ends.
    Stop,
    /// Nothing is buffered: read another line.
    ReadLine,
}

/// One step of the event stream: a buffered event goes out first; with
/// none buffered, a cancelled stream ends, and otherwise another line is
/// read.
pub fn sse_next(buf: Vec<ChatEvent>, cancelled: bool) -> (r: SseStep)
    ensures
        buf@.len() > 0 ==> (r matches SseStep::Emit(e, rest) && e@ == buf@[0]@
            && events_view(rest@) == events_view(buf@).drop_first()),
        buf@.len() == 0 && cancelled ==> r is Stop,
        buf@.len() == 0 && !cancelled ==> r is ReadLine,
{
    let mut buf = buf;
    if buf.len() == 0 {
        if cancelled {
            SseStep::Stop
        } else {
            SseStep::ReadLine
        }
    } else {
        let ghost all = buf@;
        let head = buf.remove(0);
        assert(events_view(buf@) =~= events_view(all).drop_first());
        SseStep::Emit(head, buf)
    }
}

} // verus!
