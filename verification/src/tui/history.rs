//! Chat history: the list of past turns plus a scroll position.

use vstd::prelude::*;
use crate::newtype::MessageBody;

verus! {

/// One row of conversation history.
#[derive(Debug)]
pub enum HistoryEntry {
    /// The user sent this prompt.
    User(MessageBody),
    /// The assistant is currently streaming this text.
    AssistantPartial(MessageBody),
    /// The assistant finished a turn with this text.
    AssistantComplete(MessageBody),
    /// A tool was invoked.  Stringified for display.
    ToolInvoked(MessageBody),
    /// A tool returned.  Stringified for display.
    ToolReturned(MessageBody),
    /// A non-fatal error message for display.
    Error(MessageBody),
}

/// A history entry seen as plain data.
pub enum EntryView {
    User(Seq<char>),
    AssistantPartial(Seq<char>),
    AssistantComplete(Seq<char>),
    ToolInvoked(Seq<char>),
    ToolReturned(Seq<char>),
    Error(Seq<char>),
}

impl View for HistoryEntry {
    type V = EntryView;

    open spec fn view(&self) -> EntryView {
        match self {
            HistoryEntry::User(b) => EntryView::User(b@),
            HistoryEntry::AssistantPartial(b) => EntryView::AssistantPartial(b@),
            HistoryEntry::AssistantComplete(b) => EntryView::AssistantComplete(b@),
            HistoryEntry::ToolInvoked(b) => EntryView::ToolInvoked(b@),
            HistoryEntry::ToolReturned(b) => EntryView::ToolReturned(b@),
            HistoryEntry::Error(b) => EntryView::Error(b@),
        }
    }
}

impl Clone for HistoryEntry {
    fn clone(&self) -> (r: Self)
        ensures
            r@ == self@,
    {
        match self {
            HistoryEntry::User(b) => HistoryEntry::User(b.clone()),
            HistoryEntry::AssistantPartial(b) => HistoryEntry::AssistantPartial(b.clone()),
            HistoryEntry::AssistantComplete(b) => HistoryEntry::AssistantComplete(b.clone()),
            HistoryEntry::ToolInvoked(b) => HistoryEntry::ToolInvoked(b.clone()),
            HistoryEntry::ToolReturned(b) => HistoryEntry::ToolReturned(b.clone()),
            HistoryEntry::Error(b) => HistoryEntry::Error(b.clone()),
        }
    }
}

/// The views of a sequence of entries.
pub open spec fn entries_view(es: Seq<HistoryEntry>) -> Seq<EntryView> {
    es.map_values(|e: HistoryEntry| e@)
}

/// The history seen as its entries, oldest first, and the scroll offset in
/// lines from the bottom (`0` follows the latest entry).
pub type HistoryView = (Seq<EntryView>, int);

/// `e` appended; the view snaps back to the bottom.
pub open spec fn push_spec(h: HistoryView, e: EntryView) -> HistoryView {
    (h.0.push(e), 0)
}

/// `token` appended to the last entry when it is a partial assistant turn;
/// otherwise a new partial assistant turn holding `token` is started (which
/// snaps the view back to the bottom).
pub open spec fn extend_partial_spec(h: HistoryView, token: Seq<char>) -> HistoryView {
    if h.0.len() > 0 && h.0.last() is AssistantPartial {
        (h.0.update(h.0.len() - 1, EntryView::AssistantPartial(h.0.last()->AssistantPartial_0 + token)), h.1)
    } else {
        (h.0.push(EntryView::AssistantPartial(token)), 0)
    }
}

/// The position of the most recent partial assistant turn among `es`, if
/// there is one.
pub open spec fn last_partial(es: Seq<EntryView>) -> Option<int>
    decreases es.len(),
{
    if es.len() == 0 {
        None
    } else if es.last() is AssistantPartial {
        Some(es.len() - 1)
    } else {
        last_partial(es.drop_last())
    }
}

/// The most recent partial assistant turn, wherever it stands, marked
/// complete with the same text; every other entry and the scroll offset
/// unchanged.  Without a partial turn nothing changes.
pub open spec fn finalize_spec(h: HistoryView) -> HistoryView {
    match last_partial(h.0) {
        Some(j) => (h.0.update(j, EntryView::AssistantComplete(h.0[j]->AssistantPartial_0)), h.1),
        None => h,
    }
}

/// `last_partial` names a partial turn with no partial turn after it, or
/// says there is none at all.
pub proof fn lemma_last_partial(es: Seq<EntryView>)
    ensures
        match last_partial(es) {
            Some(j) => 0 <= j < es.len() && es[j] is AssistantPartial && forall|k: int|
                j < k < es.len() ==> !(#[trigger] es[k] is AssistantPartial),
            None => forall|k: int| 0 <= k < es.len() ==> !(#[trigger] es[k] is AssistantPartial),
        },
    decreases es.len(),
{
    if es.len() > 0 && !(es.last() is AssistantPartial) {
        let d = es.drop_last();
        lemma_last_partial(d);
        assert(es[es.len() - 1] == es.last());
        assert forall|k: int| 0 <= k < es.len() - 1 implies es[k] == #[trigger] d[k] by {}
        match last_partial(d) {
            Some(j) => {
                assert(es[j] == d[j]);
                assert forall|k: int| j < k < es.len() implies !(#[trigger] es[k] is AssistantPartial) by {
                    if k < es.len() - 1 {
                        assert(es[k] == d[k]);
                    }
                }
            },
            None => {
                assert forall|k: int| 0 <= k < es.len() implies !(#[trigger] es[k] is AssistantPartial) by {
                    if k < es.len() - 1 {
                        assert(es[k] == d[k]);
                    }
                }
            },
        }
    } else if es.len() > 0 {
        assert(es[es.len() - 1] == es.last());
    }
}

/// The position found by `last_partial` is the greatest partial position.
proof fn lemma_last_partial_unique(es: Seq<EntryView>, j: int)
    requires
        0 <= j < es.len(),
        es[j] is AssistantPartial,
        forall|k: int| j < k < es.len() ==> !(#[trigger] es[k] is AssistantPartial),
    ensures
        last_partial(es) == Some(j),
    decreases es.len(),
{
    if j < es.len() - 1 {
        assert(!(es[es.len() - 1] is AssistantPartial));
        assert forall|k: int| j < k < es.len() - 1 implies !(#[trigger] es.drop_last()[k] is AssistantPartial) by {
            assert(es.drop_last()[k] == es[k]);
        }
        lemma_last_partial_unique(es.drop_last(), j);
    }
}

/// Whether `e` is a partial assistant turn.
fn is_partial(e: &HistoryEntry) -> (r: bool)
    ensures
        r == (e@ is AssistantPartial),
{
    match e {
        HistoryEntry::AssistantPartial(_) => true,
        _ => false,
    }
}

/// History plus a scroll offset measured in lines from the bottom.
#[derive(Debug)]
pub struct ChatHistory {
    entries: Vec<HistoryEntry>,
    scroll_from_bottom: usize,
}

impl View for ChatHistory {
    type V = HistoryView;

    closed spec fn view(&self) -> HistoryView {
        (entries_view(self.entries@), self.scroll_from_bottom as int)
    }
}

impl Clone for ChatHistory {
    fn clone(&self) -> (r: Self)
        ensures
            r@ == self@,
    {
        let mut entries: Vec<HistoryEntry> = Vec::new();
        let mut i: usize = 0;
        while i < self.entries.len()
            invariant
                i <= self.entries@.len(),
                entries@.len() == i,
                forall|j: int| 0 <= j < i ==> #[trigger] entries@[j]@ == self.entries@[j]@,
            decreases self.entries@.len() - i,
        {
            entries.push(self.entries[i].clone());
            i = i + 1;
        }
        let r = ChatHistory { entries, scroll_from_bottom: self.scroll_from_bottom };
        assert(r@.0 =~= self@.0);
        r
    }
}

impl ChatHistory {
    /// An empty history, following the latest entry.
    pub fn empty() -> (r: Self)
        ensures
            r@ == (Seq::<EntryView>::empty(), 0int),
    {
        let r = ChatHistory { entries: Vec::new(), scroll_from_bottom: 0 };
        assert(r@.0 =~= Seq::<EntryView>::empty());
        r
    }

    /// All entries, oldest first.
    pub fn entries(&self) -> (r: &[HistoryEntry])
        ensures
            entries_view(r@) == self@.0,
    {
        self.entries.as_slice()
    }

    /// Current scroll offset (lines from the bottom; `0` follows the latest).
    pub fn scroll_offset(&self) -> (r: usize)
        ensures
            r == self@.1,
    {
        self.scroll_from_bottom
    }

    /// Append an entry and follow the bottom again.
    fn pushed(self, e: HistoryEntry) -> (r: Self)
        ensures
            r@ == push_spec(self@, e@),
    {
        let mut entries = self.entries;
        let ghost ev = e@;
        entries.push(e);
        let r = ChatHistory { entries, scroll_from_bottom: 0 };
        assert(r@.0 =~= self@.0.push(ev));
        r
    }

    /// Append a finished user turn.
    pub fn push_user(self, body: MessageBody) -> (r: Self)
        ensures
            r@ == push_spec(self@, EntryView::User(body@)),
    {
        self.pushed(HistoryEntry::User(body))
    }

    /// Append an in-progress assistant turn with an empty body.
    pub fn start_assistant(self) -> (r: Self)
        ensures
            r@ == push_spec(self@, EntryView::AssistantPartial(Seq::empty())),
    {
        self.pushed(HistoryEntry::AssistantPartial(MessageBody::from_string(String::new())))
    }

    /// Append `token` to the most recent partial assistant turn, starting
    /// one first if the last entry is not one.
    pub fn extend_assistant_partial(self, token: &MessageBody) -> (r: Self)
        ensures
            r@ == extend_partial_spec(self@, token@),
    {
        let ghost h = self@;
        let ChatHistory { mut entries, scroll_from_bottom } = self;
        let n = entries.len();
        let last_partial = n > 0 && match &entries[n - 1] {
            HistoryEntry::AssistantPartial(_) => true,
            _ => false,
        };
        if last_partial {
            let last = entries.pop().unwrap();
            let ghost before = entries@;
            match last {
                HistoryEntry::AssistantPartial(b) => {
                    let nb = b.concat(token);
                    entries.push(HistoryEntry::AssistantPartial(nb));
                },
                other => {
                    entries.push(other);
                },
            }
            let r = ChatHistory { entries, scroll_from_bottom };
            assert(r@.0 =~= extend_partial_spec(h, token@).0);
            r
        } else {
            let ghost before = entries@;
            entries.push(HistoryEntry::AssistantPartial(token.clone()));
            let r = ChatHistory { entries, scroll_from_bottom: 0 };
            assert(r@.0 =~= extend_partial_spec(h, token@).0);
            r
        }
    }

    /// Mark the most recent partial assistant turn complete, wherever it
    /// stands.  If there is no partial turn, nothing changes.
    pub fn finalize_assistant(self) -> (r: Self)
        ensures
            r@ == finalize_spec(self@),
    {
        let ghost h = self@;
        let ChatHistory { mut entries, scroll_from_bottom } = self;
        let mut i: usize = entries.len();
        while i > 0 && !is_partial(&entries[i - 1])
            invariant
                i <= entries@.len(),
                entries_view(entries@) == h.0,
                forall|k: int| i <= k < entries@.len() ==> !(#[trigger] entries_view(entries@)[k] is AssistantPartial),
            decreases i,
        {
            proof {
                assert(entries_view(entries@)[i - 1] == entries@[i - 1]@);
            }
            i = i - 1;
        }
        proof {
            lemma_last_partial(h.0);
        }
        if i == 0 {
            proof {
                match last_partial(h.0) {
                    Some(j) => {
                        assert(h.0[j] is AssistantPartial);
                    },
                    None => {},
                }
            }
            ChatHistory { entries, scroll_from_bottom }
        } else {
            let j = i - 1;
            let body = match &entries[j] {
                HistoryEntry::AssistantPartial(b) => b.clone(),
                HistoryEntry::User(b) => b.clone(),
                HistoryEntry::AssistantComplete(b) => b.clone(),
                HistoryEntry::ToolInvoked(b) => b.clone(),
                HistoryEntry::ToolReturned(b) => b.clone(),
                HistoryEntry::Error(b) => b.clone(),
            };
            proof {
                assert(entries_view(entries@)[j as int] == entries@[j as int]@);
                assert(h.0[j as int] is AssistantPartial);
                lemma_last_partial_unique(h.0, j as int);
            }
            entries.set(j, HistoryEntry::AssistantComplete(body));
            let r = ChatHistory { entries, scroll_from_bottom };
            assert(r@.0 =~= finalize_spec(h).0);
            r
        }
    }

    /// Append a tool-invocation row.
    pub fn push_tool_invoked(self, summary: MessageBody) -> (r: Self)
        ensures
            r@ == push_spec(self@, EntryView::ToolInvoked(summary@)),
    {
        self.pushed(HistoryEntry::ToolInvoked(summary))
    }

    /// Append a tool-return row.
    pub fn push_tool_returned(self, summary: MessageBody) -> (r: Self)
        ensures
            r@ == push_spec(self@, EntryView::ToolReturned(summary@)),
    {
        self.pushed(HistoryEntry::ToolReturned(summary))
    }

    /// Append an error row.
    pub fn push_error(self, summary: MessageBody) -> (r: Self)
        ensures
            r@ == push_spec(self@, EntryView::Error(summary@)),
    {
        self.pushed(HistoryEntry::Error(summary))
    }

    /// Scroll `delta` lines up, towards older entries.
    pub fn scroll_up(self, delta: usize) -> (r: Self)
        requires
            self@.1 + delta <= usize::MAX,
        ensures
            r@ == (self@.0, self@.1 + delta),
    {
        ChatHistory { entries: self.entries, scroll_from_bottom: self.scroll_from_bottom + delta }
    }

    /// Scroll `delta` lines down, towards newer entries, stopping at the
    /// bottom.
    pub fn scroll_down(self, delta: usize) -> (r: Self)
        ensures
            r@ == (self@.0, if self@.1 >= delta { self@.1 - delta } else { 0 }),
    {
        let next = if self.scroll_from_bottom >= delta {
            self.scroll_from_bottom - delta
        } else {
            0
        };
        ChatHistory { entries: self.entries, scroll_from_bottom: next }
    }
}

/// Scrolling down undoes scrolling up by the same amount.
pub proof fn lemma_scroll_down_undoes_up(h: HistoryView, delta: int)
    requires
        0 <= h.1,
        0 <= delta,
    ensures
        ({
            let up = (h.0, h.1 + delta);
            let down = (up.0, if up.1 >= delta { up.1 - delta } else { 0 });
            down == h
        }),
{
}

/// With at most one partial turn in the history, finalizing twice is
/// finalizing once: afterwards no partial turn is left.
pub proof fn lemma_finalize_idempotent(h: HistoryView)
    requires
        forall|i: int, k: int|
            0 <= i < h.0.len() && 0 <= k < h.0.len() && #[trigger] h.0[i] is AssistantPartial
                && #[trigger] h.0[k] is AssistantPartial ==> i == k,
    ensures
        finalize_spec(finalize_spec(h)) == finalize_spec(h),
        forall|k: int| 0 <= k < finalize_spec(h).0.len() ==> !(#[trigger] finalize_spec(h).0[k] is AssistantPartial),
{
    lemma_last_partial(h.0);
    let f = finalize_spec(h).0;
    match last_partial(h.0) {
        Some(j) => {
            assert forall|k: int| 0 <= k < f.len() implies !(#[trigger] f[k] is AssistantPartial) by {
                if k != j {
                    assert(f[k] == h.0[k]);
                }
            }
        },
        None => {},
    }
    lemma_last_partial(f);
    match last_partial(f) {
        Some(j) => {
            assert(f[j] is AssistantPartial);
        },
        None => {},
    }
}

/// Streamed tokens accumulate in one partial turn, and finalizing it records
/// their concatenation as a complete turn after the entries before it.
pub proof fn lemma_tokens_then_finalize(h: HistoryView, a: Seq<char>, b: Seq<char>)
    requires
        h.0.len() == 0 || !(h.0.last() is AssistantPartial),
    ensures
        finalize_spec(extend_partial_spec(extend_partial_spec(h, a), b))
            == (h.0.push(EntryView::AssistantComplete(a + b)), 0int),
{
    let h1 = extend_partial_spec(h, a);
    assert(h1.0.last() == EntryView::AssistantPartial(a));
    let h2 = extend_partial_spec(h1, b);
    assert(h2.0 =~= h.0.push(EntryView::AssistantPartial(a + b)));
    assert(finalize_spec(h2).0 =~= h.0.push(EntryView::AssistantComplete(a + b)));
}

} // verus!
