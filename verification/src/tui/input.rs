//! Multi-line input buffer.  Every edit returns a fresh `InputBuffer`.

use vstd::prelude::*;
use crate::newtype::MessageBody;
use crate::text::{char_is_whitespace, chars_of, push_range, string_push, unicode_white_space};

verus! {

/// The buffer seen as its lines and the cursor `(line, column)`, columns
/// counted in characters.
pub type InputView = (Seq<Seq<char>>, int, int);

/// The lines joined with line feeds.
pub open spec fn join_lines(ls: Seq<Seq<char>>) -> Seq<char>
    decreases ls.len(),
{
    if ls.len() == 0 {
        Seq::empty()
    } else if ls.len() == 1 {
        ls[0]
    } else {
        join_lines(ls.drop_last()) + seq!['\n'] + ls.last()
    }
}

/// The buffer as a fresh one is.
pub open spec fn empty_input() -> InputView {
    (seq![Seq::<char>::empty()], 0int, 0int)
}

/// A cursor inside the text: at least one line, the cursor on a line and at
/// most at its end.
pub open spec fn input_wf(v: InputView) -> bool {
    &&& v.0.len() >= 1
    &&& 0 <= v.1 < v.0.len()
    &&& 0 <= v.2
    &&& v.2 <= v.0[v.1 as int].len()
}

/// `c` inserted at the cursor, the cursor after it.
pub open spec fn insert_char_spec(v: InputView, c: char) -> InputView {
    let l = v.0[v.1 as int];
    (
        v.0.update(v.1 as int, l.subrange(0, v.2 as int) + seq![c] + l.subrange(v.2 as int, l.len() as int)),
        v.1,
        v.2 + 1,
    )
}

/// The current line split at the cursor, the cursor at the start of the new
/// line.
pub open spec fn insert_newline_spec(v: InputView) -> InputView {
    let l = v.0[v.1 as int];
    (
        v.0.subrange(0, v.1 as int) + seq![l.subrange(0, v.2 as int), l.subrange(v.2 as int, l.len() as int)]
            + v.0.subrange(v.1 + 1, v.0.len() as int),
        v.1 + 1,
        0,
    )
}

/// The character before the cursor deleted; at the start of a line other
/// than the first, the line joined onto the previous one; at the very start,
/// nothing.
pub open spec fn backspace_spec(v: InputView) -> InputView {
    if v.2 == 0 && v.1 == 0 {
        v
    } else if v.2 == 0 {
        let prev = v.0[v.1 - 1];
        let cur = v.0[v.1 as int];
        (
            v.0.subrange(0, v.1 - 1) + seq![prev + cur] + v.0.subrange(v.1 + 1, v.0.len() as int),
            v.1 - 1,
            prev.len() as int,
        )
    } else {
        let l = v.0[v.1 as int];
        (
            v.0.update(v.1 as int, l.subrange(0, v.2 - 1) + l.subrange(v.2 as int, l.len() as int)),
            v.1,
            v.2 - 1,
        )
    }
}

/// The column reached walking left from `k` over whitespace.
pub open spec fn skip_space_left(s: Seq<char>, k: int) -> int
    decreases k,
{
    if k > 0 && unicode_white_space(s[k - 1]) {
        skip_space_left(s, k - 1)
    } else {
        k
    }
}

/// The column reached walking left from `k` over non-whitespace.
pub open spec fn skip_word_left(s: Seq<char>, k: int) -> int
    decreases k,
{
    if k > 0 && !unicode_white_space(s[k - 1]) {
        skip_word_left(s, k - 1)
    } else {
        k
    }
}

/// Where deleting the previous word from column `col` stops: over the
/// whitespace just before the cursor, then over the word before that.
pub open spec fn word_start(s: Seq<char>, col: int) -> int {
    skip_word_left(s, skip_space_left(s, col))
}

/// The previous word (and the whitespace after it) deleted; at the start of
/// a line, a backspace.
pub open spec fn delete_word_spec(v: InputView) -> InputView {
    if v.2 == 0 {
        backspace_spec(v)
    } else {
        let l = v.0[v.1 as int];
        let w = word_start(l, v.2 as int);
        (v.0.update(v.1 as int, l.subrange(0, w) + l.subrange(v.2 as int, l.len() as int)), v.1, w)
    }
}

/// A multi-line input buffer: lines plus the cursor position.
#[derive(Debug)]
pub struct InputBuffer {
    lines: Vec<String>,
    line: usize,
    col: usize,
}

/// The texts of a sequence of lines.
pub open spec fn lines_view(ls: Seq<String>) -> Seq<Seq<char>> {
    ls.map_values(|l: String| l@)
}

impl View for InputBuffer {
    type V = InputView;

    closed spec fn view(&self) -> InputView {
        (lines_view(self.lines@), self.line as int, self.col as int)
    }
}

impl Clone for InputBuffer {
    fn clone(&self) -> (r: Self)
        ensures
            r@ == self@,
    {
        proof {
            use_type_invariant(self);
        }
        let mut lines: Vec<String> = Vec::new();
        let mut i: usize = 0;
        while i < self.lines.len()
            invariant
                i <= self.lines@.len(),
                lines@.len() == i,
                forall|j: int| 0 <= j < i ==> #[trigger] lines@[j]@ == self.lines@[j]@,
            decreases self.lines@.len() - i,
        {
            lines.push(self.lines[i].clone());
            i = i + 1;
        }
        assert(lines_view(lines@) =~= lines_view(self.lines@));
        InputBuffer { lines, line: self.line, col: self.col }
    }
}

proof fn lemma_skip_space_bounds(s: Seq<char>, k: int)
    requires
        0 <= k <= s.len(),
    ensures
        0 <= skip_space_left(s, k) <= k,
    decreases k,
{
    if k > 0 && unicode_white_space(s[k - 1]) {
        lemma_skip_space_bounds(s, k - 1);
    }
}

proof fn lemma_skip_word_bounds(s: Seq<char>, k: int)
    requires
        0 <= k <= s.len(),
    ensures
        0 <= skip_word_left(s, k) <= k,
    decreases k,
{
    if k > 0 && !unicode_white_space(s[k - 1]) {
        lemma_skip_word_bounds(s, k - 1);
    }
}

/// Walk left from `col` over whitespace, then over non-whitespace.
fn find_word_boundary_left(chars: &[char], col: usize) -> (r: usize)
    requires
        col <= chars@.len(),
    ensures
        r == word_start(chars@, col as int),
        r <= col,
{
    let mut k = col;
    while k > 0 && char_is_whitespace(chars[k - 1])
        invariant
            k <= col <= chars@.len(),
            skip_space_left(chars@, col as int) == skip_space_left(chars@, k as int),
        decreases k,
    {
        k = k - 1;
    }
    let after_ws = k;
    while k > 0 && !char_is_whitespace(chars[k - 1])
        invariant
            k <= after_ws <= col <= chars@.len(),
            after_ws == skip_space_left(chars@, col as int),
            skip_word_left(chars@, after_ws as int) == skip_word_left(chars@, k as int),
        decreases k,
    {
        k = k - 1;
    }
    k
}

impl InputBuffer {
    #[verifier::type_invariant]
    spec fn inv(self) -> bool {
        input_wf(self@)
    }

    /// An empty buffer with the cursor at `(0, 0)`.
    pub fn empty() -> (r: Self)
        ensures
            r@ == empty_input(),
    {
        let mut lines: Vec<String> = Vec::new();
        lines.push(String::new());
        let r = InputBuffer { lines, line: 0, col: 0 };
        assert(r@.0 =~= empty_input().0);
        r
    }

    /// The contents joined with line feeds, and a fresh empty buffer.
    pub fn take(self) -> (r: (MessageBody, Self))
        ensures
            r.0@ == join_lines(self@.0),
            r.1@ == empty_input(),
    {
        let mut out = String::new();
        let mut i: usize = 0;
        let ghost ls = self@.0;
        while i < self.lines.len()
            invariant
                i <= self.lines@.len(),
                ls == lines_view(self.lines@),
                out@ == join_lines(ls.subrange(0, i as int)),
            decreases self.lines@.len() - i,
        {
            let ghost before = out@;
            if i > 0 {
                string_push(&mut out, '\n');
            }
            let cs = chars_of(self.lines[i].as_str());
            push_range(&mut out, cs.as_slice(), 0, cs.len());
            proof {
                let pre = ls.subrange(0, i as int);
                let post = ls.subrange(0, i + 1);
                assert(post.drop_last() =~= pre);
                assert(cs@.subrange(0, cs@.len() as int) =~= cs@);
                if i == 0 {
                    assert(before =~= Seq::<char>::empty());
                    assert(out@ =~= post[0]);
                } else {
                    assert(out@ =~= join_lines(pre) + seq!['\n'] + post.last());
                }
            }
            i = i + 1;
        }
        assert(ls.subrange(0, i as int) =~= ls);
        (MessageBody::from_string(out), InputBuffer::empty())
    }

    /// The lines (for rendering).
    pub fn lines(&self) -> (r: &[String])
        ensures
            lines_view(r@) == self@.0,
    {
        self.lines.as_slice()
    }

    /// Cursor position as `(line, column)`.
    pub fn cursor(&self) -> (r: (usize, usize))
        ensures
            r.0 == self@.1 && r.1 == self@.2,
    {
        (self.line, self.col)
    }

    /// `true` iff every line is empty.
    pub fn is_empty(&self) -> (r: bool)
        ensures
            r == (forall|i: int| 0 <= i < self@.0.len() ==> #[trigger] self@.0[i].len() == 0),
    {
        let mut i: usize = 0;
        while i < self.lines.len()
            invariant
                i <= self.lines@.len(),
                forall|j: int| 0 <= j < i ==> #[trigger] lines_view(self.lines@)[j].len() == 0,
            decreases self.lines@.len() - i,
        {
            if !self.lines[i].as_str().is_empty() {
                assert(self@.0[i as int].len() != 0);
                return false;
            }
            i = i + 1;
        }
        true
    }

    /// Insert a character at the cursor.
    pub fn insert_char(self, c: char) -> (r: Self)
        requires
            self@.2 < usize::MAX,
        ensures
            r@ == insert_char_spec(self@, c),
    {
        proof {
            use_type_invariant(&self);
        }
        let ghost v = self@;
        let InputBuffer { mut lines, line, col } = self;
        let cur = chars_of(lines[line].as_str());
        let mut next = String::new();
        push_range(&mut next, cur.as_slice(), 0, col);
        string_push(&mut next, c);
        push_range(&mut next, cur.as_slice(), col, cur.len());
        let ghost before = lines@;
        lines.set(line, next);
        proof {
            let l = v.0[v.1 as int];
            assert(cur@ == l);
            assert(lines@ == before.update(line as int, next));
            assert(next@ =~= l.subrange(0, col as int) + seq![c] + l.subrange(col as int, l.len() as int));
        }
        let r = InputBuffer { lines, line, col: col + 1 };
        assert(r@.0 =~= insert_char_spec(v, c).0);
        r
    }

    /// Insert a hard newline at the cursor.
    pub fn insert_newline(self) -> (r: Self)
        ensures
            r@ == insert_newline_spec(self@),
    {
        proof {
            use_type_invariant(&self);
        }
        let ghost v = self@;
        let InputBuffer { mut lines, line, col } = self;
        let cur = chars_of(lines[line].as_str());
        let mut head = String::new();
        push_range(&mut head, cur.as_slice(), 0, col);
        let mut tail = String::new();
        push_range(&mut tail, cur.as_slice(), col, cur.len());
        let n = lines.len();
        assert(line < n);
        lines.set(line, head);
        lines.insert(line + 1, tail);
        let r = InputBuffer { lines, line: line + 1, col: 0 };
        assert(r@.0 =~= insert_newline_spec(v).0);
        r
    }

    /// Delete the character before the cursor; at the start of a line other
    /// than the first, join it onto the previous line.
    pub fn backspace(self) -> (r: Self)
        ensures
            r@ == backspace_spec(self@),
    {
        proof {
            use_type_invariant(&self);
        }
        let ghost v = self@;
        let InputBuffer { mut lines, line, col } = self;
        if col == 0 && line == 0 {
            InputBuffer { lines, line, col }
        } else if col == 0 {
            let prev = chars_of(lines[line - 1].as_str());
            let cur = chars_of(lines[line].as_str());
            let mut merged = String::new();
            push_range(&mut merged, prev.as_slice(), 0, prev.len());
            push_range(&mut merged, cur.as_slice(), 0, cur.len());
            lines.set(line - 1, merged);
            let _removed = lines.remove(line);
            proof {
                assert(prev@.subrange(0, prev@.len() as int) =~= prev@);
                assert(cur@.subrange(0, cur@.len() as int) =~= cur@);
            }
            let r = InputBuffer { lines, line: line - 1, col: prev.len() };
            assert(r@.0 =~= backspace_spec(v).0);
            r
        } else {
            let cur = chars_of(lines[line].as_str());
            let mut next = String::new();
            push_range(&mut next, cur.as_slice(), 0, col - 1);
            push_range(&mut next, cur.as_slice(), col, cur.len());
            lines.set(line, next);
            let r = InputBuffer { lines, line, col: col - 1 };
            assert(r@.0 =~= backspace_spec(v).0);
            r
        }
    }

    /// Delete the previous word (a run of non-whitespace) together with the
    /// whitespace between it and the cursor.
    pub fn delete_word(self) -> (r: Self)
        ensures
            r@ == delete_word_spec(self@),
    {
        proof {
            use_type_invariant(&self);
        }
        if self.col == 0 {
            return self.backspace();
        }
        let ghost v = self@;
        let InputBuffer { mut lines, line, col } = self;
        let cur = chars_of(lines[line].as_str());
        let new_col = find_word_boundary_left(cur.as_slice(), col);
        let mut next = String::new();
        push_range(&mut next, cur.as_slice(), 0, new_col);
        push_range(&mut next, cur.as_slice(), col, cur.len());
        lines.set(line, next);
        let r = InputBuffer { lines, line, col: new_col };
        assert(r@.0 =~= delete_word_spec(v).0);
        r
    }
}

/// Inserting a character and deleting it again gives back the buffer.
pub proof fn lemma_insert_char_undone(v: InputView, c: char)
    requires
        input_wf(v),
    ensures
        backspace_spec(insert_char_spec(v, c)) == v,
{
    let l = v.0[v.1 as int];
    let w = insert_char_spec(v, c);
    let l2 = w.0[v.1 as int];
    assert(l2.subrange(0, v.2 as int) + l2.subrange(v.2 + 1, l2.len() as int) =~= l);
    assert(backspace_spec(w).0 =~= v.0);
}

/// Splitting a line and deleting the break again gives back the buffer.
pub proof fn lemma_insert_newline_undone(v: InputView)
    requires
        input_wf(v),
    ensures
        backspace_spec(insert_newline_spec(v)) == v,
{
    let l = v.0[v.1 as int];
    let w = insert_newline_spec(v);
    assert(w.0[v.1 as int] =~= l.subrange(0, v.2 as int));
    assert(w.0[v.1 + 1] =~= l.subrange(v.2 as int, l.len() as int));
    assert(l.subrange(0, v.2 as int) + l.subrange(v.2 as int, l.len() as int) =~= l);
    assert(w.0.subrange(0, v.1 as int) =~= v.0.subrange(0, v.1 as int));
    assert(w.0.subrange(v.1 + 2, w.0.len() as int) =~= v.0.subrange(v.1 + 1, v.0.len() as int));
    assert(v.0 =~= v.0.subrange(0, v.1 as int) + seq![l] + v.0.subrange(v.1 + 1, v.0.len() as int));
    assert(backspace_spec(w).0 =~= v.0);
}

/// Every edit keeps the cursor inside the text.
pub proof fn lemma_edits_keep_wf(v: InputView, c: char)
    requires
        input_wf(v),
    ensures
        v.2 < usize::MAX ==> input_wf(insert_char_spec(v, c)),
        input_wf(insert_newline_spec(v)),
        input_wf(backspace_spec(v)),
        input_wf(delete_word_spec(v)),
{
    let l = v.0[v.1 as int];
    lemma_skip_space_bounds(l, v.2 as int);
    lemma_skip_word_bounds(l, skip_space_left(l, v.2 as int));
}

} // verus!
