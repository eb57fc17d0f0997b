//! Stateful streaming filter that strips channel markers from assistant
//! tokens.  Some models emit content like
//!
//! ```text
//! <|channel>thought\n<channel|>actual reply...
//! ```
//!
//! and the whole `<|channel>...<channel|>` block is suppressed from the UI
//! and from the wire history.  Because markers can be split across token
//! boundaries, the filter buffers any unmatched tail across calls.
//!
//! The behaviour of one `feed` is `scan` below, read on the buffered tail
//! followed by the new token.

use vstd::prelude::*;
use crate::text::{chars_of, push_range, string_of_range};

verus! {

/// Opening sentinel.  Everything up to the matching close sentinel is dropped.
pub open spec fn open_marker() -> Seq<char> {
    seq!['<', '|', 'c', 'h', 'a', 'n', 'n', 'e', 'l', '>']
}

/// Closing sentinel.  Marks the end of the channel block.
pub open spec fn close_marker() -> Seq<char> {
    seq!['<', 'c', 'h', 'a', 'n', 'n', 'e', 'l', '|', '>']
}

/// `m` occurs in `s` starting at position `p`.
pub open spec fn occurs_at(s: Seq<char>, m: Seq<char>, p: int) -> bool {
    0 <= p && p + m.len() <= s.len() && s.subrange(p, p + m.len()) == m
}

/// The first position at or after `i` where `m` occurs in `s`.
pub open spec fn find_from(s: Seq<char>, m: Seq<char>, i: int) -> Option<int>
    decreases s.len() - i,
{
    if i < 0 || i >= s.len() || i + m.len() > s.len() {
        None
    } else if occurs_at(s, m, i) {
        Some(i)
    } else {
        find_from(s, m, i + 1)
    }
}

/// `a` is a prefix of `m`.
pub open spec fn is_prefix_of(a: Seq<char>, m: Seq<char>) -> bool {
    a.len() <= m.len() && m.subrange(0, a.len() as int) == a
}

/// The start of the longest suffix of `s`, of length at most `k`, that is a
/// prefix of `m`; `s.len()` when there is none.
pub open spec fn tail_cut(s: Seq<char>, m: Seq<char>, k: int) -> int
    decreases k,
{
    if k <= 0 {
        s.len() as int
    } else if is_prefix_of(s.subrange(s.len() - k, s.len() as int), m) {
        s.len() - k
    } else {
        tail_cut(s, m, k - 1)
    }
}

/// How much of a tail of length `len` may still grow into an opening marker.
pub open spec fn tail_limit(len: int) -> int {
    if open_marker().len() - 1 <= len {
        open_marker().len() - 1
    } else {
        len
    }
}

/// Filter `s` from position `pos` on, starting inside a marker block or not.
/// Returns the text to emit, the tail to keep buffered, and whether the scan
/// ends inside a marker block.
pub open spec fn scan(s: Seq<char>, pos: int, inside: bool) -> (Seq<char>, Seq<char>, bool)
    decreases s.len() - pos,
{
    if pos < 0 || pos > s.len() {
        (Seq::empty(), Seq::empty(), inside)
    } else if inside {
        match find_from(s, close_marker(), pos) {
            Some(p) => {
                proof {
                    lemma_find_from_bounds(s, close_marker(), pos);
                }
                scan(s, p + close_marker().len(), false)
            },
            None => (Seq::empty(), s.subrange(pos, s.len() as int), true),
        }
    } else {
        match find_from(s, open_marker(), pos) {
            Some(p) => {
                proof {
                    lemma_find_from_bounds(s, open_marker(), pos);
                }
                let rest = scan(s, p + open_marker().len(), true);
                (s.subrange(pos, p) + rest.0, rest.1, rest.2)
            },
            None => {
                let c = tail_cut(s, open_marker(), tail_limit(s.len() - pos));
                (s.subrange(pos, c), s.subrange(c, s.len() as int), false)
            },
        }
    }
}

/// What one `feed` of `token` emits and leaves behind, from a filter whose
/// buffered tail is `buffer` and whose marker state is `inside`.
pub open spec fn feed_result(buffer: Seq<char>, inside: bool, token: Seq<char>) -> (Seq<char>, Seq<char>, bool) {
    scan(buffer + token, 0, inside)
}

/// A found position lies at or after the start and holds a full occurrence.
pub proof fn lemma_find_from_bounds(s: Seq<char>, m: Seq<char>, i: int)
    ensures
        find_from(s, m, i) matches Some(p) ==> i <= p && occurs_at(s, m, p) && p < s.len(),
    decreases s.len() - i,
{
    if i < 0 || i >= s.len() || i + m.len() > s.len() {
    } else if occurs_at(s, m, i) {
    } else {
        lemma_find_from_bounds(s, m, i + 1);
    }
}

/// Stated the other way: `find_from` returns exactly the first occurrence.
proof fn lemma_find_from_first(s: Seq<char>, m: Seq<char>, i: int)
    requires
        0 <= i,
        m.len() > 0,
    ensures
        find_from(s, m, i) matches Some(p) ==> forall|q: int| i <= q < p ==> !#[trigger] occurs_at(s, m, q),
        find_from(s, m, i) is None ==> forall|q: int| i <= q ==> !#[trigger] occurs_at(s, m, q),
    decreases s.len() - i,
{
    if i >= s.len() || i + m.len() > s.len() {
    } else if occurs_at(s, m, i) {
    } else {
        lemma_find_from_first(s, m, i + 1);
    }
}

/// `find_from` is characterised by its result being the first occurrence.
proof fn lemma_find_from_unique(s: Seq<char>, m: Seq<char>, i: int, r: Option<int>)
    requires
        0 <= i,
        m.len() > 0,
        r matches Some(p) ==> i <= p && occurs_at(s, m, p) && forall|q: int| i <= q < p ==> !#[trigger] occurs_at(s, m, q),
        r is None ==> forall|q: int| i <= q ==> !#[trigger] occurs_at(s, m, q),
    ensures
        find_from(s, m, i) == r,
{
    lemma_find_from_bounds(s, m, i);
    lemma_find_from_first(s, m, i);
    match find_from(s, m, i) {
        Some(p) => {
            match r {
                Some(p2) => {
                    if p < p2 {
                        assert(!occurs_at(s, m, p));
                    } else if p2 < p {
                        assert(!occurs_at(s, m, p2));
                    }
                },
                None => {
                    assert(!occurs_at(s, m, p));
                },
            }
        },
        None => {
            match r {
                Some(p2) => {
                    assert(!occurs_at(s, m, p2));
                },
                None => {},
            }
        },
    }
}

/// The cut lies within the last `k` positions, and what it keeps is a prefix
/// of `m`; no longer suffix within the limit is one.
proof fn lemma_tail_cut(s: Seq<char>, m: Seq<char>, k: int)
    requires
        0 <= k <= s.len(),
    ensures
        s.len() - k <= tail_cut(s, m, k) <= s.len(),
        tail_cut(s, m, k) < s.len() ==> is_prefix_of(s.subrange(tail_cut(s, m, k), s.len() as int), m),
        forall|j: int| s.len() - tail_cut(s, m, k) < j <= k ==> !#[trigger] is_prefix_of(s.subrange(s.len() - j, s.len() as int), m),
    decreases k,
{
    if k <= 0 {
    } else if is_prefix_of(s.subrange(s.len() - k, s.len() as int), m) {
    } else {
        lemma_tail_cut(s, m, k - 1);
    }
}

/// `tail_cut` is characterised by the properties of `lemma_tail_cut`.
proof fn lemma_tail_cut_unique(s: Seq<char>, m: Seq<char>, k: int, c: int)
    requires
        0 <= k <= s.len(),
        s.len() - k <= c <= s.len(),
        c < s.len() ==> is_prefix_of(s.subrange(c, s.len() as int), m),
        forall|j: int| s.len() - c < j <= k ==> !#[trigger] is_prefix_of(s.subrange(s.len() - j, s.len() as int), m),
    ensures
        tail_cut(s, m, k) == c,
{
    lemma_tail_cut(s, m, k);
    let c1 = tail_cut(s, m, k);
    if c1 < c {
        let j = s.len() - c1;
        assert(s.len() - c < j <= k);
        assert(!is_prefix_of(s.subrange(s.len() - j, s.len() as int), m));
    } else if c < c1 {
        let j = s.len() - c;
        assert(s.len() - c1 < j <= k);
        assert(!is_prefix_of(s.subrange(s.len() - j, s.len() as int), m));
    }
}

/// Occurrences are unaffected by text in front.
proof fn lemma_occurs_shift(u: Seq<char>, v: Seq<char>, m: Seq<char>, q: int)
    requires
        0 <= q,
    ensures
        occurs_at(u + v, m, u.len() + q) == occurs_at(v, m, q),
{
    if q + m.len() <= v.len() {
        assert((u + v).subrange(u.len() + q, u.len() + q + m.len()) =~= v.subrange(q, q + m.len()));
    }
}

/// Searching after a prefix is searching the rest.
proof fn lemma_find_shift(u: Seq<char>, v: Seq<char>, m: Seq<char>, j: int)
    requires
        0 <= j,
        m.len() > 0,
    ensures
        find_from(u + v, m, u.len() + j) == (match find_from(v, m, j) {
            Some(p) => Some(u.len() + p),
            None => None::<int>,
        }),
{
    lemma_find_from_bounds(v, m, j);
    lemma_find_from_first(v, m, j);
    let r = match find_from(v, m, j) {
        Some(p) => Some(u.len() + p),
        None => None::<int>,
    };
    assert forall|q: int| u.len() + j <= q implies #[trigger] occurs_at(u + v, m, q) == occurs_at(v, m, q - u.len()) by {
        lemma_occurs_shift(u, v, m, q - u.len());
    }
    match find_from(v, m, j) {
        Some(p) => {
            assert forall|q: int| u.len() + j <= q < u.len() + p implies !#[trigger] occurs_at(u + v, m, q) by {
                assert(!occurs_at(v, m, q - u.len()));
            }
            assert(occurs_at(u + v, m, u.len() + p));
        },
        None => {
            assert forall|q: int| u.len() + j <= q implies !#[trigger] occurs_at(u + v, m, q) by {
                assert(!occurs_at(v, m, q - u.len()));
            }
        },
    }
    lemma_find_from_unique(u + v, m, u.len() + j, r);
}

/// The kept tail only looks at the end of the text.
proof fn lemma_tail_cut_shift(u: Seq<char>, v: Seq<char>, m: Seq<char>, k: int)
    requires
        0 <= k <= v.len(),
    ensures
        tail_cut(u + v, m, k) == u.len() + tail_cut(v, m, k),
    decreases k,
{
    if k > 0 {
        assert((u + v).subrange((u + v).len() - k, (u + v).len() as int) =~= v.subrange(v.len() - k, v.len() as int));
        lemma_tail_cut_shift(u, v, m, k - 1);
    }
}

/// Scanning after a prefix is scanning the rest.
proof fn lemma_scan_shift(u: Seq<char>, v: Seq<char>, j: int, inside: bool)
    requires
        0 <= j <= v.len(),
    ensures
        scan(u + v, u.len() + j, inside) == scan(v, j, inside),
    decreases v.len() - j, 
{
    let s = u + v;
    let pos = u.len() + j;
    if inside {
        lemma_find_shift(u, v, close_marker(), j);
        lemma_find_from_bounds(v, close_marker(), j);
        match find_from(v, close_marker(), j) {
            Some(p) => {
                lemma_scan_shift(u, v, p + close_marker().len(), false);
            },
            None => {
                assert(s.subrange(pos, s.len() as int) =~= v.subrange(j, v.len() as int));
            },
        }
    } else {
        lemma_find_shift(u, v, open_marker(), j);
        lemma_find_from_bounds(v, open_marker(), j);
        match find_from(v, open_marker(), j) {
            Some(p) => {
                lemma_scan_shift(u, v, p + open_marker().len(), true);
                assert(s.subrange(pos, u.len() + p) =~= v.subrange(j, p));
            },
            None => {
                lemma_tail_cut_shift(u, v, open_marker(), tail_limit(v.len() - j));
                let c = tail_cut(v, open_marker(), tail_limit(v.len() - j));
                lemma_tail_cut(v, open_marker(), tail_limit(v.len() - j));
                assert(s.subrange(pos, u.len() + c) =~= v.subrange(j, c));
                assert(s.subrange(u.len() + c, s.len() as int) =~= v.subrange(c, v.len() as int));
            },
        }
    }
}

/// A first occurrence within `s` is still the first one once more text
/// follows.
proof fn lemma_find_extend(s: Seq<char>, t: Seq<char>, m: Seq<char>, i: int)
    requires
        0 <= i,
        m.len() > 0,
        find_from(s, m, i) is Some,
    ensures
        find_from(s + t, m, i) == find_from(s, m, i),
{
    lemma_find_from_bounds(s, m, i);
    lemma_find_from_first(s, m, i);
    let p = find_from(s, m, i)->0;
    assert(occurs_at(s + t, m, p)) by {
        assert((s + t).subrange(p, p + m.len()) =~= s.subrange(p, p + m.len()));
    }
    assert forall|q: int| i <= q < p implies !#[trigger] occurs_at(s + t, m, q) by {
        if occurs_at(s + t, m, q) {
            assert(s.subrange(q, q + m.len()) =~= (s + t).subrange(q, q + m.len()));
            assert(occurs_at(s, m, q));
        }
    }
    lemma_find_from_unique(s + t, m, i, Some(p));
}

/// The central property of the filter: what a scan emits never depends on
/// text that follows, and the text that follows is handled as a scan of the
/// kept tail followed by that text.
proof fn lemma_scan_append(s: Seq<char>, t: Seq<char>, pos: int, inside: bool)
    requires
        0 <= pos <= s.len(),
    ensures
        ({
            let (o, r, i) = scan(s, pos, inside);
            let (o2, r2, i2) = scan(r + t, 0, i);
            scan(s + t, pos, inside) == (o + o2, r2, i2)
        }),
    decreases s.len() - pos,
{
    let st = s + t;
    let om = open_marker();
    let cm = close_marker();
    if inside {
        lemma_find_from_bounds(s, cm, pos);
        match find_from(s, cm, pos) {
            Some(p) => {
                lemma_find_extend(s, t, cm, pos);
                lemma_scan_append(s, t, p + cm.len(), false);
            },
            None => {
                let r = s.subrange(pos, s.len() as int);
                assert(st =~= s.subrange(0, pos) + (r + t));
                lemma_scan_shift(s.subrange(0, pos), r + t, 0, true);
                assert(Seq::<char>::empty() + scan(r + t, 0, true).0 =~= scan(r + t, 0, true).0);
            },
        }
    } else {
        lemma_find_from_bounds(s, om, pos);
        match find_from(s, om, pos) {
            Some(p) => {
                lemma_find_extend(s, t, om, pos);
                lemma_scan_append(s, t, p + om.len(), true);
                assert(st.subrange(pos, p) =~= s.subrange(pos, p));
                let rest = scan(s, p + om.len(), true);
                let rest2 = scan(rest.1 + t, 0, rest.2);
                assert(s.subrange(pos, p) + rest.0 + rest2.0 =~= s.subrange(pos, p) + (rest.0 + rest2.0));
            },
            None => {
                lemma_scan_append_tail(s, t, pos);
            },
        }
    }
}

/// With no opening marker in `s` from `pos` on, none starts in `s + t`
/// before the cut: a marker straddling the end of `s` would begin with a
/// suffix of `s` longer than the kept tail.
proof fn lemma_no_open_before_cut(s: Seq<char>, t: Seq<char>, pos: int)
    requires
        0 <= pos <= s.len(),
        find_from(s, open_marker(), pos) is None,
    ensures
        forall|q: int| pos <= q < tail_cut(s, open_marker(), tail_limit(s.len() - pos)) ==> !#[trigger] occurs_at(s + t, open_marker(), q),
{
    let st = s + t;
    let om = open_marker();
    let n = s.len();
    let k = tail_limit(n - pos);
    let c = tail_cut(s, om, k);
    lemma_tail_cut(s, om, k);
    lemma_find_from_first(s, om, pos);
    assert forall|q: int| pos <= q < c implies !#[trigger] occurs_at(st, om, q) by {
        if occurs_at(st, om, q) {
            if q + om.len() <= n {
                assert(s.subrange(q, q + om.len()) =~= st.subrange(q, q + om.len()));
                assert(occurs_at(s, om, q));
            } else {
                let j = n - q;
                assert(s.subrange(n - j, n as int) =~= st.subrange(q, q + om.len()).subrange(0, j));
                assert(om.subrange(0, j) =~= st.subrange(q, q + om.len()).subrange(0, j));
                assert(is_prefix_of(s.subrange(n - j, n as int), om));
                assert(n - c < j <= k);
            }
        }
    }
}

/// With no opening marker in `s + t` either, the cut over `s + t` from `pos`
/// is the cut from the kept tail's start.
proof fn lemma_cut_extend(s: Seq<char>, t: Seq<char>, pos: int)
    requires
        0 <= pos <= s.len(),
        find_from(s, open_marker(), pos) is None,
    ensures
        ({
            let c = tail_cut(s, open_marker(), tail_limit(s.len() - pos));
            let big_n = (s + t).len();
            let c1 = tail_cut(s + t, open_marker(), tail_limit(big_n - pos));
            c <= c1 && c1 == tail_cut(s + t, open_marker(), tail_limit(big_n - c))
        }),
{
    let st = s + t;
    let om = open_marker();
    let n = s.len();
    let big_n = st.len();
    let k = tail_limit(n - pos);
    let c = tail_cut(s, om, k);
    lemma_tail_cut(s, om, k);
    let k1 = tail_limit(big_n - pos);
    let k2 = tail_limit(big_n - c);
    let c1 = tail_cut(st, om, k1);
    lemma_tail_cut(st, om, k1);
    if c1 < c {
        let j = n - c1;
        assert(st.subrange(c1, big_n as int).subrange(0, j) =~= s.subrange(n - j, n as int));
        assert(om.subrange(0, j) =~= st.subrange(c1, big_n as int).subrange(0, j));
        assert(is_prefix_of(s.subrange(n - j, n as int), om));
        assert(n - c < j <= k);
    }
    assert forall|j: int| big_n - c1 < j <= k2 implies !#[trigger] is_prefix_of(st.subrange(big_n - j, big_n as int), om) by {
        assert(j <= k1);
    }
    lemma_tail_cut_unique(st, om, k2, c1);
}

/// The case of `lemma_scan_append` where no opening marker lies in `s`.
proof fn lemma_scan_append_tail(s: Seq<char>, t: Seq<char>, pos: int)
    requires
        0 <= pos <= s.len(),
        find_from(s, open_marker(), pos) is None,
    ensures
        ({
            let (o, r, i) = scan(s, pos, false);
            let (o2, r2, i2) = scan(r + t, 0, i);
            scan(s + t, pos, false) == (o + o2, r2, i2)
        }),
{
    let st = s + t;
    let om = open_marker();
    let n = s.len();
    let k = tail_limit(n - pos);
    let c = tail_cut(s, om, k);
    lemma_tail_cut(s, om, k);
    let r = s.subrange(c, n as int);
    assert(st =~= s.subrange(0, c) + (r + t));
    lemma_scan_shift(s.subrange(0, c), r + t, 0, false);
    lemma_no_open_before_cut(s, t, pos);
    lemma_find_from_bounds(st, om, pos);
    lemma_find_from_first(st, om, pos);
    match find_from(st, om, pos) {
        Some(q) => {
            lemma_scan_append_found(s, t, pos, q);
        },
        None => {
            lemma_find_from_unique(st, om, c, None);
            lemma_cut_extend(s, t, pos);
            let c1 = tail_cut(st, om, tail_limit(st.len() - pos));
            lemma_tail_cut(st, om, tail_limit(st.len() - pos));
            assert(c <= c1);
            assert(st.subrange(pos, c1) =~= s.subrange(pos, c) + st.subrange(c, c1));
        },
    }
}

/// The sub-case of `lemma_scan_append_tail` where `s + t` holds a marker.
proof fn lemma_scan_append_found(s: Seq<char>, t: Seq<char>, pos: int, q: int)
    requires
        0 <= pos <= s.len(),
        find_from(s, open_marker(), pos) is None,
        find_from(s + t, open_marker(), pos) == Some(q),
        forall|x: int| pos <= x < tail_cut(s, open_marker(), tail_limit(s.len() - pos)) ==> !#[trigger] occurs_at(s + t, open_marker(), x),
        ({
            let c = tail_cut(s, open_marker(), tail_limit(s.len() - pos));
            scan(s + t, c, false) == scan(s.subrange(c, s.len() as int) + t, 0, false)
        }),
    ensures
        ({
            let (o, r, i) = scan(s, pos, false);
            let (o2, r2, i2) = scan(r + t, 0, i);
            scan(s + t, pos, false) == (o + o2, r2, i2)
        }),
{
    let st = s + t;
    let om = open_marker();
    let n = s.len();
    let c = tail_cut(s, om, tail_limit(n - pos));
    lemma_tail_cut(s, om, tail_limit(n - pos));
    lemma_find_from_bounds(st, om, pos);
    lemma_find_from_first(st, om, pos);
    assert(q >= c);
    assert forall|x: int| c <= x < q implies !#[trigger] occurs_at(st, om, x) by {}
    lemma_find_from_unique(st, om, c, Some(q));
    assert(st.subrange(pos, q) =~= s.subrange(pos, c) + st.subrange(c, q));
    let rest = scan(st, q + om.len(), true);
    assert(st.subrange(pos, q) + rest.0 =~= s.subrange(pos, c) + (st.subrange(c, q) + rest.0));
}

/// Feeding two tokens in turn emits, in total, what feeding their
/// concatenation at once emits, and leaves the filter in the same state: a
/// marker split across token boundaries is handled as if it had arrived
/// whole.
pub proof fn lemma_feed_split(buffer: Seq<char>, inside: bool, a: Seq<char>, b: Seq<char>)
    ensures
        ({
            let (o1, r1, i1) = feed_result(buffer, inside, a);
            let (o2, r2, i2) = feed_result(r1, i1, b);
            feed_result(buffer, inside, a + b) == (o1 + o2, r2, i2)
        }),
{
    lemma_scan_append(buffer + a, b, 0, inside);
    assert(buffer + a + b =~= buffer + (a + b));
}

/// Text without `<` has no suffix that could start an opening marker.
proof fn lemma_tail_cut_no_angle(s: Seq<char>, k: int)
    requires
        0 <= k <= s.len(),
        forall|j: int| 0 <= j < s.len() ==> s[j] != '<',
    ensures
        tail_cut(s, open_marker(), k) == s.len(),
    decreases k,
{
    if k > 0 {
        let suffix = s.subrange(s.len() - k, s.len() as int);
        if is_prefix_of(suffix, open_marker()) {
            assert(open_marker().subrange(0, suffix.len() as int)[0] == suffix[0]);
            assert(suffix[0] == s[s.len() - k]);
        }
        lemma_tail_cut_no_angle(s, k - 1);
    }
}

/// For text that holds no `<`, a clean filter is a passthrough: the token is
/// emitted whole and the filter stays clean.
pub proof fn lemma_plain_text_passes_through(token: Seq<char>)
    requires
        forall|j: int| 0 <= j < token.len() ==> token[j] != '<',
    ensures
        feed_result(Seq::empty(), false, token) == (token, Seq::<char>::empty(), false),
{
    let s = Seq::<char>::empty() + token;
    assert(s =~= token);
    lemma_find_from_bounds(s, open_marker(), 0);
    if let Some(p) = find_from(s, open_marker(), 0) {
        assert(s.subrange(p, p + open_marker().len())[0] == s[p]);
    }
    lemma_tail_cut_no_angle(s, tail_limit(s.len() as int));
    assert(s.subrange(0, s.len() as int) =~= s);
    assert(s.subrange(s.len() as int, s.len() as int) =~= Seq::<char>::empty());
}

/// Stateful filter.  Construct one per assistant turn; feed tokens in order;
/// take the cleaned output from each call.
#[derive(Debug, Clone)]
pub struct ChannelFilter {
    /// Unflushed tail of input that has not yet been fully classified: a
    /// partial marker prefix (outside a block) or the block contents so far
    /// (inside one).
    buffer: String,
    /// `true` iff the most recent opening marker is not yet closed.
    inside_marker: bool,
}

impl View for ChannelFilter {
    type V = (Seq<char>, bool);

    closed spec fn view(&self) -> (Seq<char>, bool) {
        (self.buffer@, self.inside_marker)
    }
}

/// The opening marker as characters.
fn open_marker_chars() -> (v: Vec<char>)
    ensures
        v@ == open_marker(),
{
    let v = vec!['<', '|', 'c', 'h', 'a', 'n', 'n', 'e', 'l', '>'];
    assert(v@ =~= open_marker());
    v
}

/// The closing marker as characters.
fn close_marker_chars() -> (v: Vec<char>)
    ensures
        v@ == close_marker(),
{
    let v = vec!['<', 'c', 'h', 'a', 'n', 'n', 'e', 'l', '|', '>'];
    assert(v@ =~= close_marker());
    v
}

/// Whether `m` occurs in `s` at `p`.
fn occurs_at_exec(s: &[char], m: &[char], p: usize) -> (r: bool)
    requires
        p + m@.len() <= s@.len(),
    ensures
        r == occurs_at(s@, m@, p as int),
{
    let sl = s.len();
    let mut j: usize = 0;
    while j < m.len()
        invariant
            sl == s@.len(),
            p + m@.len() <= s@.len(),
            j <= m@.len(),
            forall|x: int| 0 <= x < j ==> s@[p + x] == m@[x],
        decreases m@.len() - j,
    {
        if s[p + j] != m[j] {
            assert(s@.subrange(p as int, p + m@.len())[j as int] != m@[j as int]);
            return false;
        }
        j = j + 1;
    }
    assert(s@.subrange(p as int, p + m@.len()) =~= m@);
    true
}

/// The first occurrence of `m` in `s` at or after `i`.
fn find_from_exec(s: &[char], m: &[char], i: usize) -> (r: Option<usize>)
    requires
        m@.len() > 0,
        i <= s@.len(),
    ensures
        r matches Some(p) ==> find_from(s@, m@, i as int) == Some(p as int),
        r is None ==> find_from(s@, m@, i as int) is None,
{
    let mut q: usize = i;
    while q < s.len() && m.len() <= s.len() - q
        invariant
            i <= q <= s@.len(),
            m@.len() > 0,
            find_from(s@, m@, i as int) == find_from(s@, m@, q as int),
        decreases s@.len() - q,
    {
        if occurs_at_exec(s, m, q) {
            return Some(q);
        }
        q = q + 1;
    }
    None
}

/// Whether the last `k` characters of `s` are a prefix of `m`.
fn suffix_is_prefix(s: &[char], m: &[char], k: usize) -> (r: bool)
    requires
        k <= s@.len(),
    ensures
        r == is_prefix_of(s@.subrange(s@.len() - k, s@.len() as int), m@),
{
    let n = s.len();
    if k > m.len() {
        return false;
    }
    let mut j: usize = 0;
    while j < k
        invariant
            k <= n,
            n == s@.len(),
            k <= m@.len(),
            j <= k,
            forall|x: int| 0 <= x < j ==> s@[n - k + x] == m@[x],
        decreases k - j,
    {
        if s[n - k + j] != m[j] {
            assert(m@.subrange(0, k as int)[j as int] != s@.subrange(n - k, n as int)[j as int]);
            return false;
        }
        j = j + 1;
    }
    assert(m@.subrange(0, k as int) =~= s@.subrange(n - k, n as int));
    true
}

/// `tail_cut` for the region of `s` from `pos` on.
fn tail_cut_exec(s: &[char], m: &[char], pos: usize) -> (c: usize)
    requires
        pos <= s@.len(),
        m@ == open_marker(),
    ensures
        c == tail_cut(s@, m@, tail_limit(s@.len() - pos)),
{
    let n = s.len();
    let max_check: usize = if m.len() - 1 <= n - pos {
        m.len() - 1
    } else {
        n - pos
    };
    let mut k: usize = max_check;
    while k > 0
        invariant
            k <= max_check,
            max_check == tail_limit(s@.len() - pos),
            max_check <= n - pos,
            n == s@.len(),
            tail_cut(s@, m@, max_check as int) == tail_cut(s@, m@, k as int),
        decreases k,
    {
        if suffix_is_prefix(s, m, k) {
            return n - k;
        }
        k = k - 1;
    }
    n
}

impl ChannelFilter {
    /// A fresh filter ready to consume the first token of a turn.
    pub fn new() -> (r: Self)
        ensures
            r@ == (Seq::<char>::empty(), false),
    {
        ChannelFilter { buffer: String::new(), inside_marker: false }
    }

    /// Feed one token through the filter.  Returns the next filter state and
    /// the (possibly empty) cleaned text ready to emit.
    pub fn feed(self, token: &str) -> (r: (Self, String))
        ensures
            ({
                let (out, kept, inside) = feed_result(self@.0, self@.1, token@);
                r.0@ == (kept, inside) && r.1@ == out
            }),
    {
        let ChannelFilter { buffer, inside_marker } = self;
        let mut combined = chars_of(buffer.as_str());
        let tail = chars_of(token);
        let ghost start = combined@;
        let mut i: usize = 0;
        while i < tail.len()
            invariant
                i <= tail@.len(),
                combined@ == start + tail@.subrange(0, i as int),
            decreases tail@.len() - i,
        {
            combined.push(tail[i]);
            proof {
                assert(tail@.subrange(0, i + 1) =~= tail@.subrange(0, i as int).push(tail@[i as int]));
            }
            i = i + 1;
        }
        assert(tail@.subrange(0, tail@.len() as int) =~= tail@);
        let (out, kept, inside) = consume(&combined, inside_marker);
        (ChannelFilter { buffer: kept, inside_marker: inside }, out)
    }

    /// `true` iff there is no buffered tail and no open marker.
    pub fn is_clean(&self) -> (r: bool)
        ensures
            r == (self@.0.len() == 0 && !self@.1),
    {
        self.buffer.as_str().is_empty() && !self.inside_marker
    }
}

/// Run the scan over `s` from its start.
fn consume(s: &Vec<char>, inside0: bool) -> (r: (String, String, bool))
    ensures
        (r.0@, r.1@, r.2) == scan(s@, 0, inside0),
{
    let open = open_marker_chars();
    let close = close_marker_chars();
    let n = s.len();
    let mut out = String::new();
    let mut pos: usize = 0;
    let mut inside = inside0;
    loop
        invariant
            n == s@.len(),
            open@ == open_marker(),
            close@ == close_marker(),
            pos <= n,
            ({
                let t = scan(s@, pos as int, inside);
                scan(s@, 0, inside0) == (out@ + t.0, t.1, t.2)
            }),
        decreases n - pos,
    {
        proof {
            lemma_find_from_bounds(s@, close_marker(), pos as int);
            lemma_find_from_bounds(s@, open_marker(), pos as int);
        }
        if inside {
            match find_from_exec(s.as_slice(), close.as_slice(), pos) {
                Some(p) => {
                    pos = p + 10;
                    inside = false;
                },
                None => {
                    let kept = string_of_range(s.as_slice(), pos, n);
                    assert(out@ + Seq::<char>::empty() =~= out@);
                    return (out, kept, true);
                },
            }
        } else {
            match find_from_exec(s.as_slice(), open.as_slice(), pos) {
                Some(p) => {
                    let ghost before = out@;
                    push_range(&mut out, s.as_slice(), pos, p);
                    proof {
                        let rest = scan(s@, p + 10, true);
                        assert(before + (s@.subrange(pos as int, p as int) + rest.0) =~= out@ + rest.0);
                    }
                    pos = p + 10;
                    inside = true;
                },
                None => {
                    let c = tail_cut_exec(s.as_slice(), open.as_slice(), pos);
                    proof {
                        lemma_tail_cut(s@, open_marker(), tail_limit(s@.len() - pos));
                    }
                    push_range(&mut out, s.as_slice(), pos, c);
                    let kept = string_of_range(s.as_slice(), c, n);
                    return (out, kept, false);
                },
            }
        }
    }
}

} // verus!
