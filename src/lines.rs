//! The line model of a document: a sequence of chars split at line feeds.
//!
//! A document with `k` line feeds has `k + 1` lines. Line `i` runs from
//! `line_start(t, i)` to `line_end(t, i)`; every line but the last is followed
//! by its line feed, which belongs to no line's text.
//!
//! Only the line feed ends a line. A carriage return, as in a CRLF file, is
//! an ordinary char: it stays at the end of the line's text and counts in
//! its length. Other Unicode line separators do not split lines either.
use vstd::prelude::*;

verus! {

/// Indices of the line feeds of `t`, in increasing order.
pub open spec fn newline_positions(t: Seq<char>) -> Seq<int>
    decreases t.len(),
{
    if t.len() == 0 {
        Seq::empty()
    } else {
        let rest = newline_positions(t.drop_last());
        if t.last() == '\n' {
            rest.push(t.len() - 1)
        } else {
            rest
        }
    }
}

/// Number of lines of `t`: one more than its number of line feeds.
pub open spec fn line_count(t: Seq<char>) -> nat {
    newline_positions(t).len() + 1
}

/// Index of the first char of line `i`; for `i == line_count(t)`, the end of `t`.
pub open spec fn line_start(t: Seq<char>, i: nat) -> int {
    if i == 0 {
        0
    } else if i < line_count(t) {
        newline_positions(t)[i - 1] + 1
    } else {
        t.len() as int
    }
}

/// Index just past the text of line `i`: its line feed, or the end of `t` for the last line.
pub open spec fn line_end(t: Seq<char>, i: nat) -> int {
    if i + 1 < line_count(t) {
        newline_positions(t)[i as int]
    } else {
        t.len() as int
    }
}

/// The text of line `i`, without its line feed.
pub open spec fn line_text(t: Seq<char>, i: nat) -> Seq<char> {
    t.subrange(line_start(t, i), line_end(t, i))
}

/// Length in chars of the text of line `i`.
pub open spec fn line_len(t: Seq<char>, i: nat) -> nat {
    (line_end(t, i) - line_start(t, i)) as nat
}

/// What ends line `i`: a line feed, or nothing for the last line.
pub open spec fn terminator(t: Seq<char>, i: nat) -> Seq<char> {
    if i + 1 < line_count(t) {
        seq!['\n']
    } else {
        Seq::empty()
    }
}

/// Lines `from .. to` of `t` one after the other, each followed by its terminator.
pub open spec fn joined_lines(t: Seq<char>, from: nat, to: nat) -> Seq<char>
    decreases to,
{
    if to <= from {
        Seq::empty()
    } else {
        let last = (to - 1) as nat;
        joined_lines(t, from, last) + line_text(t, last) + terminator(t, last)
    }
}

/// The smaller of two naturals.
pub open spec fn min_nat(a: nat, b: nat) -> nat {
    if a <= b {
        a
    } else {
        b
    }
}

/// The chars of lines `from .. to`, where `to` is first clamped to the line
/// count and `from` then to `to`.
pub open spec fn range_text(t: Seq<char>, from: nat, to: nat) -> Seq<char> {
    let hi = min_nat(to, line_count(t));
    let lo = min_nat(from, hi);
    t.subrange(line_start(t, lo), line_start(t, hi))
}

/// Every recorded position holds a line feed inside `t`, and the positions increase.
pub proof fn lemma_newline_positions(t: Seq<char>)
    ensures
        forall|j: int|
            0 <= j < newline_positions(t).len() ==> 0 <= #[trigger] newline_positions(t)[j] < t.len()
                && t[newline_positions(t)[j]] == '\n',
        forall|j: int, k: int|
            0 <= j < k < newline_positions(t).len() ==> #[trigger] newline_positions(t)[j]
                < #[trigger] newline_positions(t)[k],
    decreases t.len(),
{
    if t.len() > 0 {
        let s = t.drop_last();
        lemma_newline_positions(s);
        assert forall|j: int| 0 <= j < newline_positions(s).len() implies s[newline_positions(s)[j]]
            == t[newline_positions(s)[j]] by {}
    }
}

/// Line `i` sits inside `t`, and the next line starts right after its terminator.
pub proof fn lemma_line_bounds(t: Seq<char>, i: nat)
    requires
        i < line_count(t),
    ensures
        0 <= line_start(t, i) <= line_end(t, i) <= t.len(),
        line_start(t, i + 1) == line_end(t, i) + terminator(t, i).len(),
        i + 1 < line_count(t) ==> line_end(t, i) < t.len() && t[line_end(t, i)] == '\n',
{
    lemma_newline_positions(t);
    if i > 0 && i + 1 < line_count(t) {
        assert(newline_positions(t)[i - 1] < newline_positions(t)[i as int]);
    }
}

/// Line starts do not decrease, and all lie inside `t`.
pub proof fn lemma_line_start_mono(t: Seq<char>, a: nat, b: nat)
    requires
        a <= b <= line_count(t),
    ensures
        0 <= line_start(t, a) <= line_start(t, b) <= t.len(),
    decreases b - a,
{
    if a < b {
        lemma_line_bounds(t, a);
        lemma_line_start_mono(t, a + 1, b);
    } else {
        if a > 0 {
            lemma_line_bounds(t, (a - 1) as nat);
        }
    }
}

/// The chars between two line starts are the joined lines between them.
pub proof fn lemma_span_is_joined(t: Seq<char>, from: nat, to: nat)
    requires
        from <= to <= line_count(t),
    ensures
        t.subrange(line_start(t, from), line_start(t, to)) == joined_lines(t, from, to),
    decreases to,
{
    if from == to {
        lemma_line_start_mono(t, from, to);
        assert(t.subrange(line_start(t, from), line_start(t, to)) =~= Seq::<char>::empty());
    } else {
        let last = (to - 1) as nat;
        lemma_span_is_joined(t, from, last);
        lemma_line_start_mono(t, from, last);
        lemma_line_bounds(t, last);
        let a = line_start(t, from);
        let b = line_start(t, last);
        let e = line_end(t, last);
        let c = line_start(t, to);
        assert(t.subrange(e, c) =~= terminator(t, last));
        assert(t.subrange(a, c) =~= t.subrange(a, b) + t.subrange(b, e) + t.subrange(e, c));
    }
}

} // verus!
