//! Source positions and the spanned error type shared by the text parsers.

use vstd::prelude::*;
use vstd::string::StringSliceAdditionalSpecFns;

verus! {

/// A byte range in the source text (half-open: `start..end`).
/// Byte offsets, not char offsets — `&source[start..end]` reproduces the text.
#[derive(Copy, Clone, Debug, PartialEq, Eq, Structural)]
pub struct Span {
    pub start: usize,
    pub end: usize,
}

/// A value annotated with its source span.
#[derive(Copy, Clone, Debug)]
pub struct Spanned<T> {
    pub span: Span,
    pub value: T,
}

/// A parse failure at byte offset `pos`, with the offset of the definition
/// header it occurred under when there is one.
#[derive(Debug)]
pub struct ParseError<InnerError> {
    pub pos: usize,
    pub def_header_pos: Option<usize>,
    pub inner: InnerError,
}

impl<T> ParseError<T> {
    pub fn new(pos: usize, inner: T) -> (r: Self)
        ensures
            r.pos == pos,
            r.def_header_pos is None,
            r.inner == inner,
    {
        ParseError { pos, def_header_pos: None, inner }
    }

    pub fn with_def_header(self, def_header_pos: usize) -> (r: Self)
        ensures
            r.pos == self.pos,
            r.def_header_pos == Some(def_header_pos),
            r.inner == self.inner,
    {
        ParseError { pos: self.pos, def_header_pos: Some(def_header_pos), inner: self.inner }
    }
}

// ── line index ────────────────────────────────────────────────────────────────

/// The offsets at which the lines of `b[..n]` start: `0`, then just past
/// each `\n`.
pub open spec fn starts_upto(b: Seq<u8>, n: int) -> Seq<int>
    decreases n,
{
    if n <= 0 {
        seq![0int]
    } else if b[n - 1] == 10 {
        starts_upto(b, n - 1).push(n)
    } else {
        starts_upto(b, n - 1)
    }
}

/// The line starts of the text whose UTF-8 bytes are `b`.
pub open spec fn line_starts_m(b: Seq<u8>) -> Seq<int> {
    starts_upto(b, b.len() as int)
}

/// How many of `s` are at most `pos`.
pub open spec fn count_le(s: Seq<int>, pos: int) -> int
    decreases s.len(),
{
    if s.len() == 0 {
        0
    } else {
        count_le(s.drop_last(), pos) + if s.last() <= pos {
            1int
        } else {
            0int
        }
    }
}

/// Strictly increasing, starting at zero.
pub open spec fn starts_ok(s: Seq<int>) -> bool {
    &&& s.len() >= 1
    &&& s[0] == 0
    &&& forall|i: int, j: int| 0 <= i < j < s.len() ==> s[i] < s[j]
}

proof fn lemma_starts_upto(b: Seq<u8>, n: int)
    requires
        0 <= n <= b.len(),
    ensures
        starts_ok(starts_upto(b, n)),
        forall|i: int| 0 <= i < starts_upto(b, n).len() ==> #[trigger] starts_upto(b, n)[i] <= n,
        forall|i: int| 1 <= i < starts_upto(b, n).len() ==> b[#[trigger] starts_upto(b, n)[i] - 1] == 10,
    decreases n,
{
    if n > 0 {
        lemma_starts_upto(b, n - 1);
    }
}

/// In a strictly increasing sequence starting at zero, the count of entries
/// at most `pos` is the position just past the last such entry.
proof fn lemma_count_le(s: Seq<int>, pos: int, k: int)
    requires
        forall|i: int, j: int| 0 <= i < j < s.len() ==> s[i] < s[j],
        0 <= k <= s.len(),
        forall|i: int| 0 <= i < k ==> s[i] <= pos,
        forall|i: int| k <= i < s.len() ==> s[i] > pos,
    ensures
        count_le(s, pos) == k,
    decreases s.len(),
{
    if s.len() > 0 {
        let d = s.drop_last();
        if k == s.len() {
            lemma_count_le(d, pos, k - 1);
        } else {
            lemma_count_le(d, pos, k);
        }
    }
}

/// Converts byte offsets to (line, column) for diagnostic rendering.
pub struct LineIndex {
    line_starts: Vec<usize>,
}

impl LineIndex {
    #[verifier::type_invariant]
    spec fn inv(&self) -> bool {
        starts_ok(self.line_starts@.map_values(|x: usize| x as int))
    }

    /// The offsets at which the lines start.
    pub closed spec fn starts(&self) -> Seq<int> {
        self.line_starts@.map_values(|x: usize| x as int)
    }

    /// Records where the lines of `source` start.
    pub fn new(source: &str) -> (r: Self)
        ensures
            r.starts() == line_starts_m(source.spec_bytes()),
    {
        let b = source.as_bytes();
        let mut line_starts: Vec<usize> = Vec::new();
        line_starts.push(0);
        let mut i: usize = 0;
        proof {
            assert(line_starts@.map_values(|x: usize| x as int) =~= starts_upto(b@, 0));
        }
        while i < b.len()
            invariant
                i <= b@.len(),
                line_starts@.map_values(|x: usize| x as int) == starts_upto(b@, i as int),
            decreases b.len() - i,
        {
            if b[i] == 10 {
                line_starts.push(i + 1);
            }
            i += 1;
            assert(line_starts@.map_values(|x: usize| x as int) =~= starts_upto(b@, i as int));
        }
        proof {
            lemma_starts_upto(b@, b@.len() as int);
        }
        LineIndex { line_starts }
    }

    /// The index of the line holding `pos`: the last line starting at or
    /// before it.
    fn line_of(&self, pos: usize) -> (r: usize)
        ensures
            r + 1 == count_le(self.starts(), pos as int),
            r < self.starts().len(),
            r < self.line_starts@.len(),
            self.starts()[r as int] <= pos,
    {
        proof {
            use_type_invariant(self);
        }
        let ghost s = self.starts();
        let mut lo: usize = 0;
        let mut hi: usize = self.line_starts.len();
        while lo < hi
            invariant
                0 <= lo <= hi <= self.line_starts@.len(),
                s == self.starts(),
                starts_ok(s),
                s.len() == self.line_starts@.len(),
                forall|i: int| 0 <= i < lo ==> s[i] <= pos,
                forall|i: int| hi <= i < s.len() ==> s[i] > pos,
            decreases hi - lo,
        {
            let mid = lo + (hi - lo) / 2;
            assert(s[mid as int] == self.line_starts@[mid as int]);
            if self.line_starts[mid] <= pos {
                lo = mid + 1;
            } else {
                hi = mid;
            }
        }
        proof {
            lemma_count_le(s, pos as int, lo as int);
            assert(s[0] <= pos);
        }
        lo - 1
    }

    /// The 1-based line and column of byte offset `pos`.
    pub fn lookup(&self, pos: usize) -> (r: (usize, usize, &str))
        requires
            pos < usize::MAX,
        ensures
            r.0 == count_le(self.starts(), pos as int),
            r.1 == pos - self.starts()[r.0 - 1] + 1,
            r.2@ == Seq::<char>::empty(),
    {
        let line = self.line_of(pos);
        let n = self.line_starts.len();
        assert(line < n);
        let start = self.line_starts[line];
        let col = pos - start + 1;
        proof {
            reveal_strlit("");
        }
        (line + 1, col, "")
    }

    /// The text of the line holding `pos`, without its `\n`.
    pub fn line_text<'a>(&self, source: &'a str, pos: usize) -> (r: &'a str)
        requires
            self.starts() == line_starts_m(source.spec_bytes()),
        ensures
            ({
                let b = source.spec_bytes();
                let start = self.starts()[count_le(self.starts(), pos as int) - 1];
                let end = line_text_end(b, start);
                r.spec_bytes() == b.subrange(start, end)
            }),
    {
        let line = self.line_of(pos);
        let start = self.line_starts[line];
        let b = source.as_bytes();
        let ghost bs = b@;
        proof {
            lemma_starts_upto(bs, bs.len() as int);
            vstd::utf8::encode_utf8_valid_utf8(source@);
        }
        let mut end = start;
        while end < b.len() && b[end] != 10
            invariant
                start <= end <= b@.len(),
                line_text_end(b@, start as int) == line_text_end(b@, end as int),
            decreases b.len() - end,
        {
            end += 1;
        }
        proof {
            if start > 0 {
                assert(self.starts()[line as int] == start);
                assert(bs[start - 1] == 10);
                super::lexer::lemma_boundary_after_ascii(bs, start - 1);
            } else {
                vstd::utf8::is_char_boundary_start_end_of_seq(bs);
            }
            if end < bs.len() {
                vstd::utf8::is_char_boundary_iff_not_is_continuation_byte(bs, end as int);
            } else {
                vstd::utf8::is_char_boundary_start_end_of_seq(bs);
            }
        }
        super::lexer::slice_at(source, start, end)
    }
}

/// Where the line that starts at `p` ends: the next `\n`, or the end.
pub open spec fn line_text_end(b: Seq<u8>, p: int) -> int
    decreases b.len() - p,
{
    if !(0 <= p < b.len()) || b[p] == 10 {
        p
    } else {
        line_text_end(b, p + 1)
    }
}

} // verus!
