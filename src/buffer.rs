//! The document store: a rope of the loaded text, read by line index or by
//! line range. It is built once and never changed.
//!
//! ropey is built without its `cr_lines` and `unicode_lines` features, so the
//! rope splits lines at line feeds alone, as the model in `lines` does.
use vstd::prelude::*;

use crate::lines::{
    joined_lines, lemma_line_bounds, lemma_line_start_mono, lemma_span_is_joined, line_count,
    line_len, line_start, line_text, range_text, terminator,
};
use ropey::Rope;

verus! {

#[verifier::external_type_specification]
#[verifier::external_body]
pub struct ExRope(ropey::Rope);

/// The chars that a rope holds.
pub uninterp spec fn rope_text(r: Rope) -> Seq<char>;

/// Relies on ropey's `Rope::from_str`: the rope holds exactly the chars of `text`.
#[verifier::external_body]
fn rope_from_str(text: &str) -> (r: Rope)
    ensures
        rope_text(r) == text@,
{
    Rope::from_str(text)
}

/// Relies on ropey's `Rope::len_lines`: built without the `cr_lines` and
/// `unicode_lines` features, it counts the line feeds and adds one.
#[verifier::external_body]
fn rope_len_lines(r: &Rope) -> (n: usize)
    ensures
        n == line_count(rope_text(*r)),
{
    r.len_lines()
}

/// Relies on ropey's `Rope::line_to_char`: the char index where line `i`
/// starts, or the char length for `i == len_lines()`; it panics past that.
#[verifier::external_body]
fn rope_line_to_char(r: &Rope, i: usize) -> (c: usize)
    requires
        i <= line_count(rope_text(*r)),
    ensures
        c == line_start(rope_text(*r), i as nat),
{
    r.line_to_char(i)
}

/// Relies on ropey's `Rope::slice` and its `From<RopeSlice>` for `String`: the
/// chars at indices `start .. end`; `slice` panics if `start > end` or
/// `end > len_chars()`.
#[verifier::external_body]
fn rope_slice(r: &Rope, start: usize, end: usize) -> (s: String)
    requires
        start <= end <= rope_text(*r).len(),
    ensures
        s@ == rope_text(*r).subrange(start as int, end as int),
{
    String::from(r.slice(start..end))
}

/// A line index at or past the line count.
#[derive(Debug, Clone, Copy, PartialEq, Eq)]
pub struct OutOfRange {
    pub index: usize,
    pub line_count: usize,
}

/// The loaded document.
pub struct Buffer {
    content: Rope,
}

impl View for Buffer {
    type V = Seq<char>;

    closed spec fn view(&self) -> Seq<char> {
        rope_text(self.content)
    }
}

impl Buffer {
    /// Builds the store from the whole text of the document.
    pub fn new(text: &str) -> (b: Buffer)
        ensures
            b@ == text@,
    {
        Buffer { content: rope_from_str(text) }
    }

    /// Number of lines; never zero.
    pub fn get_lines_count(&self) -> (n: usize)
        ensures
            n == line_count(self@),
            n >= 1,
    {
        rope_len_lines(&self.content)
    }

    /// The text of line `line`, without its line feed.
    pub fn get_line_at(&self, line: usize) -> (r: Result<String, OutOfRange>)
        ensures
            r is Ok <==> line < line_count(self@),
            r matches Ok(s) ==> s@ == line_text(self@, line as nat),
            r matches Err(e) ==> e == (OutOfRange { index: line, line_count: line_count(self@) as usize }),
    {
        let n = self.get_lines_count();
        if line >= n {
            return Err(OutOfRange { index: line, line_count: n });
        }
        proof {
            lemma_line_bounds(self@, line as nat);
        }
        let start = rope_line_to_char(&self.content, line);
        let next = rope_line_to_char(&self.content, line + 1);
        let end = if line + 1 < n {
            next - 1
        } else {
            next
        };
        Ok(rope_slice(&self.content, start, end))
    }

    /// Length in chars of line `line`, without its line feed.
    pub fn get_line_len(&self, line: usize) -> (len: usize)
        requires
            line < line_count(self@),
        ensures
            len == line_len(self@, line as nat),
    {
        proof {
            lemma_line_bounds(self@, line as nat);
        }
        let n = self.get_lines_count();
        let start = rope_line_to_char(&self.content, line);
        let next = rope_line_to_char(&self.content, line + 1);
        if line + 1 < n {
            next - 1 - start
        } else {
            next - start
        }
    }

    /// The chars of lines `from .. to`, line feeds included; `to` is clamped
    /// to the line count and `from` to `to`, so this never fails.
    pub fn get_lines(&self, from: usize, to: usize) -> (r: String)
        ensures
            r@ == range_text(self@, from as nat, to as nat),
    {
        let n = self.get_lines_count();
        let hi = if to < n {
            to
        } else {
            n
        };
        let lo = if from < hi {
            from
        } else {
            hi
        };
        proof {
            lemma_line_start_mono(self@, lo as nat, hi as nat);
        }
        let start = rope_line_to_char(&self.content, lo);
        let end = rope_line_to_char(&self.content, hi);
        rope_slice(&self.content, start, end)
    }
}

/// A range read is the lines of the range, each followed by its terminator;
/// a terminator is the line feed that ends every line but the last. It is
/// empty when `from` is at or past the line count.
pub proof fn lemma_range_is_joined_lines(b: &Buffer, from: usize, to: usize)
    requires
        from <= to,
    ensures
        range_text(b@, from as nat, to as nat) == joined_lines(
            b@,
            from as nat,
            if (to as nat) < line_count(b@) {
                to as nat
            } else {
                line_count(b@)
            },
        ),
        forall|i: nat|
            i < line_count(b@) ==> #[trigger] terminator(b@, i) == (if i + 1 < line_count(b@) {
                seq!['\n']
            } else {
                Seq::<char>::empty()
            }),
        from >= line_count(b@) ==> range_text(b@, from as nat, to as nat).len() == 0,
{
    let t = b@;
    let n = line_count(t);
    let hi: nat = if (to as nat) < n {
        to as nat
    } else {
        n
    };
    if (from as nat) <= hi {
        lemma_span_is_joined(t, from as nat, hi);
    } else {
        lemma_line_start_mono(t, hi, hi);
        assert(range_text(t, from as nat, to as nat) =~= Seq::<char>::empty());
    }
}

/// Reading the whole line range gives back the loaded text.
pub proof fn lemma_full_range_is_text(text: &str, b: &Buffer)
    requires
        b@ == text@,
    ensures
        range_text(b@, 0, line_count(b@)) == text@,
{
    lemma_line_start_mono(b@, 0, line_count(b@));
    assert(b@.subrange(0, b@.len() as int) =~= b@);
}

} // verus!
