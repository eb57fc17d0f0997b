//! Tool-call accumulator for streaming responses.  The streaming protocol
//! spreads each call across several chunks: the first chunk for a given
//! `index` carries `id` and `function.name`; later chunks carry only
//! `function.arguments` fragments under the same `index`.  The accumulator
//! stitches the fragments back into complete `PendingCall`s.

use vstd::prelude::*;
use vstd::string::StringExecFns;
use crate::newtype::{MessageBody, ToolCallId, ToolCallIndex, ToolName};
use crate::wire::ToolCall;

verus! {

/// One assembled tool call, ready to dispatch.  `args_buf` is the raw
/// JSON-stringified arguments as concatenated from the stream.
#[derive(Debug)]
pub struct PendingCall {
    id: ToolCallId,
    name: ToolName,
    args_buf: String,
}

/// A pending call seen as its id, function name and arguments.
pub type PendingView = (Seq<char>, Seq<char>, Seq<char>);

impl View for PendingCall {
    type V = PendingView;

    closed spec fn view(&self) -> PendingView {
        (self.id@, self.name@, self.args_buf@)
    }
}

impl Clone for PendingCall {
    fn clone(&self) -> (r: Self)
        ensures
            r@ == self@,
    {
        PendingCall { id: self.id.clone(), name: self.name.clone(), args_buf: self.args_buf.clone() }
    }
}

impl PendingCall {
    /// Construct a pending call directly.
    pub fn new(id: ToolCallId, name: ToolName, args_buf: String) -> (r: Self)
        ensures
            r@ == (id@, name@, args_buf@),
    {
        PendingCall { id, name, args_buf }
    }

    /// Server-assigned tool call id.
    pub fn id(&self) -> (r: &ToolCallId)
        ensures
            r@ == self@.0,
    {
        &self.id
    }

    /// Function name to invoke.
    pub fn name(&self) -> (r: &ToolName)
        ensures
            r@ == self@.1,
    {
        &self.name
    }

    /// Accumulated JSON-stringified arguments.
    pub fn args_buf(&self) -> (r: &str)
        ensures
            r@ == self@.2,
    {
        self.args_buf.as_str()
    }

    /// The wire-format `ToolCall` recording what the model requested.
    pub fn to_wire(&self) -> (r: ToolCall)
        ensures
            r@ == self@,
    {
        ToolCall::new(self.id.clone(), self.name.clone(), self.args_buf.clone())
    }
}

/// The accumulator seen as its entries, in stream order: the index each was
/// started under and the call assembled so far.
pub type AccumulatorView = Seq<(u32, PendingView)>;

/// `entries` with `frag` appended to the arguments of every entry started
/// under `idx`.
pub open spec fn with_args(entries: AccumulatorView, idx: u32, frag: Seq<char>) -> AccumulatorView {
    entries.map_values(|e: (u32, PendingView)|
        if e.0 == idx {
            (e.0, (e.1.0, e.1.1, e.1.2 + frag))
        } else {
            e
        }
    )
}

/// Accumulator over the in-flight tool-call deltas for one assistant turn.
#[derive(Debug)]
pub struct ToolCallAccumulator {
    pending: Vec<(ToolCallIndex, PendingCall)>,
}

impl Clone for ToolCallAccumulator {
    fn clone(&self) -> (r: Self)
        ensures
            r@ == self@,
    {
        let mut pending: Vec<(ToolCallIndex, PendingCall)> = Vec::new();
        let mut i: usize = 0;
        while i < self.pending.len()
            invariant
                i <= self.pending@.len(),
                pending@.len() == i,
                forall|j: int|
                    0 <= j < i ==> (#[trigger] pending@[j]).0@ == self.pending@[j].0@ && pending@[j].1@
                        == self.pending@[j].1@,
            decreases self.pending@.len() - i,
        {
            let e = &self.pending[i];
            pending.push((e.0, e.1.clone()));
            i = i + 1;
        }
        let r = ToolCallAccumulator { pending };
        assert(r@ =~= self@);
        r
    }
}

impl View for ToolCallAccumulator {
    type V = AccumulatorView;

    closed spec fn view(&self) -> AccumulatorView {
        self.pending@.map_values(|e: (ToolCallIndex, PendingCall)| (e.0@, e.1@))
    }
}

impl ToolCallAccumulator {
    /// An empty accumulator.
    pub fn empty() -> (r: Self)
        ensures
            r@ == Seq::<(u32, PendingView)>::empty(),
    {
        let r = ToolCallAccumulator { pending: Vec::new() };
        assert(r@ =~= Seq::<(u32, PendingView)>::empty());
        r
    }

    /// Record the start of a call: a new entry with an empty arguments
    /// buffer, after all existing ones.
    pub fn add_start(self, idx: ToolCallIndex, id: ToolCallId, name: ToolName) -> (r: Self)
        ensures
            r@ == self@.push((idx@, (id@, name@, Seq::<char>::empty()))),
    {
        let mut pending = self.pending;
        let ghost before = pending@;
        pending.push((idx, PendingCall::new(id, name, String::new())));
        let r = ToolCallAccumulator { pending };
        assert(r@ =~= self@.push((idx@, (id@, name@, Seq::<char>::empty()))));
        r
    }

    /// Append an arguments fragment to the call started under `idx`.  If no
    /// call was started under `idx`, the fragment is dropped.
    pub fn add_args(self, idx: ToolCallIndex, frag: MessageBody) -> (r: Self)
        ensures
            r@ == with_args(self@, idx@, frag@),
    {
        let frag_str = frag.into_string();
        let old_pending = self.pending;
        let mut pending: Vec<(ToolCallIndex, PendingCall)> = Vec::new();
        let mut i: usize = 0;
        while i < old_pending.len()
            invariant
                i <= old_pending@.len(),
                pending@.len() == i,
                forall|j: int| 0 <= j < i ==> {
                    let e = old_pending@[j];
                    (#[trigger] pending@[j]).0@ == e.0@ && pending@[j].1@ == (if e.0@ == idx@ {
                        (e.1@.0, e.1@.1, e.1@.2 + frag_str@)
                    } else {
                        e.1@
                    })
                },
            decreases old_pending@.len() - i,
        {
            let (e_idx, call) = &old_pending[i];
            let new_args = if e_idx.value() == idx.value() {
                call.args_buf.clone().concat(frag_str.as_str())
            } else {
                call.args_buf.clone()
            };
            pending.push((*e_idx, PendingCall::new(call.id.clone(), call.name.clone(), new_args)));
            i = i + 1;
        }
        let r = ToolCallAccumulator { pending };
        assert(r@ =~= with_args(self@, idx@, frag@));
        r
    }

    /// Consume the accumulator and return the assembled calls in stream order.
    pub fn finalize(self) -> (r: Vec<PendingCall>)
        ensures
            r@.len() == self@.len(),
            forall|i: int| 0 <= i < r@.len() ==> #[trigger] r@[i]@ == self@[i].1,
    {
        let mut out: Vec<PendingCall> = Vec::new();
        let mut i: usize = 0;
        while i < self.pending.len()
            invariant
                i <= self.pending@.len(),
                out@.len() == i,
                forall|j: int| 0 <= j < i ==> #[trigger] out@[j]@ == self.pending@[j].1@,
            decreases self.pending@.len() - i,
        {
            out.push(self.pending[i].1.clone());
            i = i + 1;
        }
        out
    }

    /// `true` iff no tool-call start has been recorded.
    pub fn is_empty(&self) -> (r: bool)
        ensures
            r == (self@.len() == 0),
    {
        self.pending.len() == 0
    }
}

/// Arguments arriving under an index that no call was started under change
/// nothing.
pub proof fn lemma_args_unknown_index(entries: AccumulatorView, idx: u32, frag: Seq<char>)
    requires
        forall|i: int| 0 <= i < entries.len() ==> (#[trigger] entries[i]).0 != idx,
    ensures
        with_args(entries, idx, frag) == entries,
{
    assert(with_args(entries, idx, frag) =~= entries);
}

/// Fragments arriving under one index accumulate in order: two fragments in
/// turn amount to their concatenation.
pub proof fn lemma_args_concatenate(entries: AccumulatorView, idx: u32, a: Seq<char>, b: Seq<char>)
    ensures
        with_args(with_args(entries, idx, a), idx, b) == with_args(entries, idx, a + b),
{
    assert forall|i: int| 0 <= i < entries.len() implies
        #[trigger] with_args(with_args(entries, idx, a), idx, b)[i] == with_args(entries, idx, a + b)[i] by {
        let e = entries[i];
        if e.0 == idx {
            assert(e.1.2 + a + b =~= e.1.2 + (a + b));
        }
    }
    assert(with_args(with_args(entries, idx, a), idx, b) =~= with_args(entries, idx, a + b));
}

/// Starting a call leaves the calls started before it, and their order,
/// untouched.
pub proof fn lemma_start_keeps_order(entries: AccumulatorView, e: (u32, PendingView))
    ensures
        entries.push(e).len() == entries.len() + 1,
        forall|i: int| 0 <= i < entries.len() ==> #[trigger] entries.push(e)[i] == entries[i],
        entries.push(e)[entries.len() as int] == e,
{
}

} // verus!
