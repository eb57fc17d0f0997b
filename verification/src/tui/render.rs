//! What the screen shows, as plain data: the lines of the history pane with
//! their prefixes and styles, how far the pane is scrolled, and the titles
//! and footer for each mode.  Drawing them is left to the terminal layer.

use vstd::prelude::*;
use crate::text::{chars_of, string_of_range};
use crate::tui::app::Mode;
use crate::tui::history::{EntryView, HistoryEntry, entries_view};
use crate::tui::input::join_lines;

verus! {

/// How the text of an entry is drawn.
#[derive(Debug, Clone, Copy, PartialEq, Eq, Structural)]
pub enum EntryStyle {
    /// User prompts.
    Bold,
    /// Assistant text.
    Plain,
    /// Tool activity.
    Dim,
    /// Errors.
    Reversed,
}

/// One line of the history pane.
#[derive(Debug)]
pub struct RenderedLine {
    /// The five-column gutter: the speaker's prefix on an entry's first line,
    /// blanks after it.
    pub prefix: String,
    /// Whether the gutter is drawn in the entry's style (only on the first
    /// line).
    pub prefix_styled: bool,
    /// The text of this line of the entry.
    pub text: String,
    /// The entry's style.
    pub style: EntryStyle,
}

/// A rendered line seen as plain data.
pub struct LineView {
    pub prefix: Seq<char>,
    pub prefix_styled: bool,
    pub text: Seq<char>,
    pub style: EntryStyle,
}

impl View for RenderedLine {
    type V = LineView;

    open spec fn view(&self) -> LineView {
        LineView { prefix: self.prefix@, prefix_styled: self.prefix_styled, text: self.text@, style: self.style }
    }
}

/// The views of a sequence of rendered lines.
pub open spec fn lines_view(ls: Seq<RenderedLine>) -> Seq<LineView> {
    ls.map_values(|l: RenderedLine| l@)
}

/// The texts of a sequence of lines.
pub open spec fn texts_of(ls: Seq<LineView>) -> Seq<Seq<char>> {
    ls.map_values(|l: LineView| l.text)
}

/// Whether `s` holds no line feed.
pub open spec fn no_newline(s: Seq<char>) -> bool {
    forall|j: int| 0 <= j < s.len() ==> s[j] != '\n'
}

/// `pieces` is `s` cut at each line feed: joined back with line feeds they
/// give `s`, and none of them holds a line feed.
pub open spec fn is_split_of(pieces: Seq<Seq<char>>, s: Seq<char>) -> bool {
    &&& pieces.len() >= 1
    &&& join_lines(pieces) == s
    &&& forall|j: int| 0 <= j < pieces.len() ==> no_newline(#[trigger] pieces[j])
}

/// The gutter text of an entry's first line.
pub open spec fn prefix_of(e: EntryView) -> Seq<char> {
    match e {
        EntryView::User(_) => "you  "@,
        EntryView::AssistantPartial(_) | EntryView::AssistantComplete(_) => "bot  "@,
        EntryView::ToolInvoked(_) | EntryView::ToolReturned(_) => "tool "@,
        EntryView::Error(_) => "err  "@,
    }
}

/// The style of an entry.
pub open spec fn style_of(e: EntryView) -> EntryStyle {
    match e {
        EntryView::User(_) => EntryStyle::Bold,
        EntryView::AssistantPartial(_) | EntryView::AssistantComplete(_) => EntryStyle::Plain,
        EntryView::ToolInvoked(_) | EntryView::ToolReturned(_) => EntryStyle::Dim,
        EntryView::Error(_) => EntryStyle::Reversed,
    }
}

/// The text of an entry.
pub open spec fn body_of(e: EntryView) -> Seq<char> {
    match e {
        EntryView::User(b) => b,
        EntryView::AssistantPartial(b) => b,
        EntryView::AssistantComplete(b) => b,
        EntryView::ToolInvoked(b) => b,
        EntryView::ToolReturned(b) => b,
        EntryView::Error(b) => b,
    }
}

/// The gutter of every line of an entry but the first.
pub open spec fn blank_gutter() -> Seq<char> {
    "     "@
}

/// `ls` are the lines of entry `e`: one per piece of its text cut at line
/// feeds, the first with the speaker's prefix in the entry's style, the
/// others with a blank unstyled gutter.
pub open spec fn lines_of_entry(ls: Seq<LineView>, e: EntryView) -> bool {
    &&& is_split_of(texts_of(ls), body_of(e))
    &&& forall|j: int| 0 <= j < ls.len() ==> (#[trigger] ls[j]).style == style_of(e)
    &&& forall|j: int| 0 <= j < ls.len() ==> (#[trigger] ls[j]).prefix_styled == (j == 0)
    &&& forall|j: int| 0 <= j < ls.len() ==> (#[trigger] ls[j]).prefix == (if j == 0 {
        prefix_of(e)
    } else {
        blank_gutter()
    })
}

/// The first line of the pane taken up by the lines of each entry.
pub open spec fn entry_starts_ok(ls: Seq<LineView>, es: Seq<EntryView>, starts: Seq<int>) -> bool {
    &&& starts.len() == es.len() + 1
    &&& starts[0] == 0
    &&& starts[es.len() as int] == ls.len()
    &&& forall|i: int| 0 <= i < es.len() ==> starts[i] <= #[trigger] starts[i + 1]
    &&& forall|i: int|
        0 <= i < es.len() ==> lines_of_entry(ls.subrange(starts[i], starts[i + 1]), #[trigger] es[i])
}

/// The pane's lines are the lines of each entry, in order.
pub open spec fn lines_of_entries(ls: Seq<LineView>, es: Seq<EntryView>) -> bool {
    exists|starts: Seq<int>| entry_starts_ok(ls, es, starts)
}

/// The first visible line: the view follows the bottom, `offset` lines back,
/// stopping at the top; a value past `u16::MAX` is clamped to it.
pub open spec fn scroll_top_spec(total: int, viewport: int, offset: int) -> int {
    let bottom = if total > viewport { total - viewport } else { 0 };
    let top = if bottom > offset { bottom - offset } else { 0 };
    if top > 65535 { 65535 } else { top }
}

/// Title of the input pane in each mode.
pub open spec fn input_title_spec(mode: Mode) -> Seq<char> {
    match mode {
        Mode::Idle => " input "@,
        Mode::Streaming => " input (streaming...) "@,
        Mode::Quitting => " input (quitting) "@,
    }
}

/// Footer hint in each mode.
pub open spec fn footer_spec(mode: Mode) -> Seq<char> {
    match mode {
        Mode::Idle => "Enter=send  Shift+Enter=newline  Up/Down=scroll  Ctrl+C=quit"@,
        Mode::Streaming => "Esc=cancel  Up/Down=scroll  (streaming...)"@,
        Mode::Quitting => "(quitting)"@,
    }
}

/// Joining after appending `c` to the last piece appends `c` to the joined
/// text.
proof fn lemma_join_extend_last(ls: Seq<Seq<char>>, x: Seq<char>, c: char)
    ensures
        join_lines(ls.push(x.push(c))) == join_lines(ls.push(x)).push(c),
{
    let a = ls.push(x.push(c));
    let b = ls.push(x);
    assert(a.drop_last() =~= ls);
    assert(b.drop_last() =~= ls);
    if ls.len() == 0 {
    } else {
        assert(join_lines(a) == join_lines(ls) + seq!['\n'] + x.push(c));
        assert(join_lines(b) == join_lines(ls) + seq!['\n'] + x);
        assert(join_lines(ls) + seq!['\n'] + x.push(c) =~= (join_lines(ls) + seq!['\n'] + x).push(c));
    }
}

/// Joining after starting a new, empty piece appends a line feed.
proof fn lemma_join_new_piece(ls: Seq<Seq<char>>)
    requires
        ls.len() >= 1,
    ensures
        join_lines(ls.push(Seq::<char>::empty())) == join_lines(ls).push('\n'),
{
    let a = ls.push(Seq::<char>::empty());
    assert(a.drop_last() =~= ls);
    assert(join_lines(ls) + seq!['\n'] + Seq::<char>::empty() =~= join_lines(ls).push('\n'));
}

/// A text made by joining at least two pieces holds a line feed.
proof fn lemma_join_has_newline(ls: Seq<Seq<char>>)
    requires
        ls.len() >= 2,
    ensures
        !no_newline(join_lines(ls)),
{
    let x = join_lines(ls.drop_last());
    assert(join_lines(ls) == x + seq!['\n'] + ls.last());
    assert((x + seq!['\n'] + ls.last())[x.len() as int] == '\n');
}

/// The cut of a text at its line feeds is unique: two sequences of pieces
/// without line feeds that join to the same text are equal.  So
/// `split_lines` gives exactly the pieces `str::split('\n')` gives.
pub proof fn lemma_split_unique(a: Seq<Seq<char>>, b: Seq<Seq<char>>, s: Seq<char>)
    requires
        is_split_of(a, s),
        is_split_of(b, s),
    ensures
        a == b,
    decreases a.len(),
{
    if a.len() == 1 && b.len() == 1 {
        assert(a =~= b);
    } else if a.len() == 1 {
        assert(no_newline(a[0]));
        lemma_join_has_newline(b);
    } else if b.len() == 1 {
        assert(no_newline(b[0]));
        lemma_join_has_newline(a);
    } else {
        let x = join_lines(a.drop_last());
        let y = join_lines(b.drop_last());
        let p = a.last();
        let q = b.last();
        assert(s == x + seq!['\n'] + p);
        assert(s == y + seq!['\n'] + q);
        assert(no_newline(p));
        assert(no_newline(q));
        if p.len() < q.len() {
            let i = x.len() as int;
            assert((x + seq!['\n'] + p)[i] == '\n');
            assert((y + seq!['\n'] + q)[i] == q[i - y.len() - 1]);
        } else if q.len() < p.len() {
            let i = y.len() as int;
            assert((y + seq!['\n'] + q)[i] == '\n');
            assert((x + seq!['\n'] + p)[i] == p[i - x.len() - 1]);
        }
        assert(p.len() == q.len());
        assert(x.len() == y.len());
        assert(x =~= s.subrange(0, x.len() as int));
        assert(y =~= s.subrange(0, y.len() as int));
        assert(p =~= s.subrange(x.len() as int + 1, s.len() as int));
        assert(q =~= s.subrange(y.len() as int + 1, s.len() as int));
        assert forall|j: int| 0 <= j < a.drop_last().len() implies no_newline(#[trigger] a.drop_last()[j]) by {
            assert(a.drop_last()[j] == a[j]);
        }
        assert forall|j: int| 0 <= j < b.drop_last().len() implies no_newline(#[trigger] b.drop_last()[j]) by {
            assert(b.drop_last()[j] == b[j]);
        }
        lemma_split_unique(a.drop_last(), b.drop_last(), x);
        assert(a =~= a.drop_last().push(p));
        assert(b =~= b.drop_last().push(q));
    }
}

/// The text of `body` cut at each line feed, as `str::split('\n')` cuts it.
pub fn split_lines(body: &str) -> (r: Vec<String>)
    ensures
        is_split_of(r@.map_values(|s: String| s@), body@),
{
    let cs = chars_of(body);
    let n = cs.len();
    let mut done: Vec<String> = Vec::new();
    let mut start: usize = 0;
    let mut i: usize = 0;
    while i < n
        invariant
            n == cs@.len(),
            cs@ == body@,
            start <= i <= n,
            join_lines(done@.map_values(|s: String| s@).push(cs@.subrange(start as int, i as int)))
                == cs@.subrange(0, i as int),
            forall|j: int| 0 <= j < done@.len() ==> no_newline(#[trigger] done@[j]@),
            no_newline(cs@.subrange(start as int, i as int)),
        decreases n - i,
    {
        let ghost dv = done@.map_values(|s: String| s@);
        let ghost cur = cs@.subrange(start as int, i as int);
        if cs[i] == '\n' {
            let piece = string_of_range(cs.as_slice(), start, i);
            done.push(piece);
            proof {
                assert(done@.map_values(|s: String| s@) =~= dv.push(cur));
                lemma_join_new_piece(dv.push(cur));
                assert(cs@.subrange(i + 1, i + 1) =~= Seq::<char>::empty());
                assert(cs@.subrange(0, i + 1) =~= cs@.subrange(0, i as int).push('\n'));
            }
            start = i + 1;
        } else {
            proof {
                lemma_join_extend_last(dv, cur, cs@[i as int]);
                assert(cs@.subrange(start as int, i + 1) =~= cur.push(cs@[i as int]));
                assert(cs@.subrange(0, i + 1) =~= cs@.subrange(0, i as int).push(cs@[i as int]));
            }
        }
        i = i + 1;
    }
    let last = string_of_range(cs.as_slice(), start, n);
    let ghost dv = done@.map_values(|s: String| s@);
    done.push(last);
    proof {
        let rv = done@.map_values(|s: String| s@);
        assert(rv =~= dv.push(cs@.subrange(start as int, n as int)));
        assert(cs@.subrange(0, n as int) =~= cs@);
        assert forall|j: int| 0 <= j < rv.len() implies no_newline(#[trigger] rv[j]) by {
            if j < dv.len() {
                assert(rv[j] == done@[j]@);
            }
        }
    }
    done
}

/// The gutter and style of an entry, and its text.
fn entry_parts(entry: &HistoryEntry) -> (r: (String, EntryStyle, &str))
    ensures
        r.0@ == prefix_of(entry@),
        r.1 == style_of(entry@),
        r.2@ == body_of(entry@),
{
    match entry {
        HistoryEntry::User(b) => ("you  ".to_owned(), EntryStyle::Bold, b.as_str()),
        HistoryEntry::AssistantPartial(b) => ("bot  ".to_owned(), EntryStyle::Plain, b.as_str()),
        HistoryEntry::AssistantComplete(b) => ("bot  ".to_owned(), EntryStyle::Plain, b.as_str()),
        HistoryEntry::ToolInvoked(b) => ("tool ".to_owned(), EntryStyle::Dim, b.as_str()),
        HistoryEntry::ToolReturned(b) => ("tool ".to_owned(), EntryStyle::Dim, b.as_str()),
        HistoryEntry::Error(b) => ("err  ".to_owned(), EntryStyle::Reversed, b.as_str()),
    }
}

/// The lines of one history entry, appended to `out`.
pub fn push_entry_lines(out: &mut Vec<RenderedLine>, entry: &HistoryEntry)
    ensures
        final(out)@.len() >= old(out)@.len(),
        final(out)@.subrange(0, old(out)@.len() as int) == old(out)@,
        lines_of_entry(
            lines_view(final(out)@).subrange(old(out)@.len() as int, final(out)@.len() as int),
            entry@,
        ),
{
    let (prefix, style, body) = entry_parts(entry);
    let pieces = split_lines(body);
    let ghost pv = pieces@.map_values(|s: String| s@);
    let ghost start = out@.len();
    let ghost o0 = out@;
    let mut j: usize = 0;
    while j < pieces.len()
        invariant
            start == o0.len(),
            out@.len() == start + j,
            j <= pieces@.len(),
            pv == pieces@.map_values(|s: String| s@),
            prefix@ == prefix_of(entry@),
            style == style_of(entry@),
            out@.subrange(0, start as int) == o0,
            forall|k: int| 0 <= k < j ==> (#[trigger] out@[start + k])@ == (LineView {
                prefix: if k == 0 { prefix_of(entry@) } else { blank_gutter() },
                prefix_styled: k == 0,
                text: pv[k],
                style: style_of(entry@),
            }),
        decreases pieces@.len() - j,
    {
        let gutter = if j == 0 {
            prefix.clone()
        } else {
            "     ".to_owned()
        };
        let line = RenderedLine { prefix: gutter, prefix_styled: j == 0, text: pieces[j].clone(), style };
        out.push(line);
        proof {
            assert(out@.subrange(0, start as int) =~= o0);
        }
        j = j + 1;
    }
    proof {
        let lv = lines_view(out@).subrange(start as int, out@.len() as int);
        assert forall|k: int| 0 <= k < lv.len() implies #[trigger] texts_of(lv)[k] == pv[k] by {
            assert(lv[k] == out@[start + k]@);
        }
        assert(texts_of(lv) =~= pv);
        assert forall|k: int| 0 <= k < lv.len() implies (#[trigger] lv[k]).style == style_of(entry@)
            && lv[k].prefix_styled == (k == 0) && lv[k].prefix == (if k == 0 {
            prefix_of(entry@)
        } else {
            blank_gutter()
        }) by {
            assert(lv[k] == out@[start + k]@);
        }
    }
}

proof fn lemma_starts_monotone(starts: Seq<int>, a: int, b: int)
    requires
        0 <= a <= b < starts.len(),
        forall|k: int| 0 <= k < b ==> starts[k] <= #[trigger] starts[k + 1],
    ensures
        starts[a] <= starts[b],
    decreases b - a,
{
    if a < b {
        lemma_starts_monotone(starts, a, b - 1);
        let c = b - 1;
        assert(starts[c] <= starts[c + 1]);
    }
}

/// The lines of the history pane: the lines of each entry, oldest first.
pub fn history_lines(entries: &[HistoryEntry]) -> (r: Vec<RenderedLine>)
    ensures
        lines_of_entries(lines_view(r@), entries_view(entries@)),
{
    let mut out: Vec<RenderedLine> = Vec::new();
    let ghost mut starts: Seq<int> = seq![0int];
    let mut i: usize = 0;
    while i < entries.len()
        invariant
            i <= entries@.len(),
            starts.len() == i + 1,
            starts[0] == 0,
            starts[i as int] == out@.len(),
            forall|k: int| 0 <= k < i ==> starts[k] <= #[trigger] starts[k + 1],
            forall|k: int|
                0 <= k < i ==> lines_of_entry(
                    lines_view(out@).subrange(starts[k], starts[k + 1]),
                    #[trigger] entries_view(entries@)[k],
                ),
        decreases entries@.len() - i,
    {
        let ghost before = out@;
        let ghost s0 = starts;
        push_entry_lines(&mut out, &entries[i]);
        proof {
            starts = s0.push(out@.len() as int);
            assert forall|k: int| 0 <= k < i + 1 implies starts[k] <= #[trigger] starts[k + 1] by {
                if k < i {
                    assert(s0[k] <= s0[k + 1]);
                }
            }
            assert forall|k: int|
                0 <= k < i + 1 implies lines_of_entry(
                lines_view(out@).subrange(starts[k], starts[k + 1]),
                #[trigger] entries_view(entries@)[k],
            ) by {
                if k < i {
                    let a = s0[k];
                    let b = s0[k + 1];
                    lemma_starts_monotone(s0, 0, k);
                    lemma_starts_monotone(s0, k + 1, i as int);
                    assert(0 <= a <= b <= before.len());
                    assert(out@.subrange(0, before.len() as int) == before);
                    assert forall|u: int| 0 <= u < b - a implies #[trigger] lines_view(out@).subrange(a, b)[u]
                        == lines_view(before).subrange(a, b)[u] by {
                        assert(out@.subrange(0, before.len() as int)[a + u] == out@[a + u]);
                    }
                    assert(lines_view(out@).subrange(a, b) =~= lines_view(before).subrange(a, b));
                } else {
                    assert(entries_view(entries@)[k] == entries@[k]@);
                }
            }
        }
        i = i + 1;
    }
    proof {
        assert(entry_starts_ok(lines_view(out@), entries_view(entries@), starts));
    }
    out
}

/// The first visible line of the history pane given the number of lines,
/// the pane's inner height and the user's offset from the bottom.
pub fn scroll_top(total: usize, viewport: u16, offset: usize) -> (r: u16)
    ensures
        r as int == scroll_top_spec(total as int, viewport as int, offset as int),
{
    let v: usize = viewport as usize;
    let bottom: usize = if total > v { total - v } else { 0 };
    let top: usize = if bottom > offset { bottom - offset } else { 0 };
    if top > 65535 {
        65535
    } else {
        top as u16
    }
}

/// Title of the input pane.
pub fn input_title(mode: Mode) -> (r: &'static str)
    ensures
        r@ == input_title_spec(mode),
{
    match mode {
        Mode::Idle => " input ",
        Mode::Streaming => " input (streaming...) ",
        Mode::Quitting => " input (quitting) ",
    }
}

/// Footer hint line.
pub fn footer_text(mode: Mode) -> (r: &'static str)
    ensures
        r@ == footer_spec(mode),
{
    match mode {
        Mode::Idle => "Enter=send  Shift+Enter=newline  Up/Down=scroll  Ctrl+C=quit",
        Mode::Streaming => "Esc=cancel  Up/Down=scroll  (streaming...)",
        Mode::Quitting => "(quitting)",
    }
}

} // verus!
