//! The key-value text grammar shared by the `.tng` and `.wld` files:
//! `Field value;` statements and `StartX ... EndX;` / `NewThing ... EndThing;`
//! blocks. This is a simple text tokenizer, not a def compiler.

use vstd::prelude::*;
use vstd::string::StringSliceAdditionalSpecFns;
use vstd::utf8::{is_char_boundary, valid_utf8};
use crate::bytes::str_eq;
use crate::def::text::lexer::{lemma_boundary_after_ascii, slice_at, ws_width, ws_width_exec};
use crate::def::text::number::{dec_chars, format_u64};

verus! {

/// A parse error with the line it was found on.
#[derive(Debug)]
pub struct KvError {
    pub line: usize,
    pub inner: KvErrorKind,
}

#[derive(Debug)]
pub enum KvErrorKind {
    UnexpectedEnd,
    UnterminatedString,
    Unexpected(String),
    ExpectedSemicolon,
}

/// A token in the key-value grammar.
#[derive(Debug, Clone, Copy, PartialEq)]
pub enum KvToken<'a> {
    /// An identifier or keyword, e.g. `NewThing`, `DefinitionType`.
    Ident(&'a str),
    /// A double-quoted string.
    String(&'a str),
    /// A numeric value (integer or float).
    Number(&'a str),
    /// An `=` sign (unused in .tng/.wld).
    Equals,
    /// A semicolon `;`.
    Semicolon,
    /// A `{` (unused in .tng/.wld).
    OpenBrace,
    /// A `}` (unused in .tng/.wld).
    CloseBrace,
}

/// A parsed key-value statement.
#[derive(Debug)]
pub enum KvStatement<'a> {
    /// `Field value;`
    Field(&'a str, KvValue<'a>),
    /// A `StartX ... EndX;` or `NewThing ... EndThing;` block.
    Block { keyword: &'a str, kind: &'a str, body: Vec<KvStatement<'a>> },
}

/// A value in a key-value assignment.
#[derive(Debug, Clone, Copy, PartialEq)]
pub enum KvValue<'a> {
    String(&'a str),
    Number(&'a str),
    Ident(&'a str),
    Bool(bool),
}

// ── the model ─────────────────────────────────────────────────────────────────

/// A value by its bytes.
pub enum KvValM {
    Str(Seq<u8>),
    Number(Seq<u8>),
    Ident(Seq<u8>),
    Bool(bool),
}

/// A statement by its bytes: a field's name and value, or a block's keyword,
/// kind and body.
pub enum KvStmtM {
    Field(Seq<u8>, KvValM),
    Block(Seq<u8>, Seq<u8>, Seq<KvStmtM>),
}

pub enum KvErrM {
    UnexpectedEnd,
    UnterminatedString,
    Unexpected(Seq<char>),
    ExpectedSemicolon,
}

/// An error in the model: its line and kind.
pub type KvErr = (int, KvErrM);

/// Where the run of spaces, tabs and line breaks from `p` ends, and the line
/// there (`\r\n`, `\r` and `\n` each end a line).
pub open spec fn ws_run(b: Seq<u8>, p: int, line: int) -> (int, int)
    decreases b.len() - p,
{
    if 0 <= p < b.len() {
        if b[p] == 32 || b[p] == 9 {
            ws_run(b, p + 1, line)
        } else if b[p] == 13 {
            if p + 1 < b.len() && b[p + 1] == 10 {
                ws_run(b, p + 2, line + 1)
            } else {
                ws_run(b, p + 1, line + 1)
            }
        } else if b[p] == 10 {
            ws_run(b, p + 1, line + 1)
        } else {
            (p, line)
        }
    } else {
        (p, line)
    }
}

/// Whether `s` stands in `b` at `p`.
pub open spec fn has_prefix_at(b: Seq<u8>, p: int, s: Seq<u8>) -> bool {
    0 <= p && p + s.len() <= b.len() && b.subrange(p, p + s.len()) == s
}

/// The first position at or after `p` that holds `c`.
pub open spec fn find_byte(b: Seq<u8>, p: int, c: u8) -> Option<int>
    decreases b.len() - p,
{
    if 0 <= p < b.len() {
        if b[p] == c {
            Some(p)
        } else {
            find_byte(b, p + 1, c)
        }
    } else {
        None
    }
}

/// The first position at or after `p` where `*/` starts.
pub open spec fn find_close(b: Seq<u8>, p: int) -> Option<int>
    decreases b.len() - p,
{
    if 0 <= p && p + 1 < b.len() {
        if b[p] == 42 && b[p + 1] == 47 {
            Some(p)
        } else {
            find_close(b, p + 1)
        }
    } else {
        None
    }
}

/// The number of `\n` in `b[s..e]`.
pub open spec fn count_newlines(b: Seq<u8>, s: int, e: int) -> int
    decreases e - s,
{
    if s < e {
        (if b[s] == 10 {
            1int
        } else {
            0int
        }) + count_newlines(b, s + 1, e)
    } else {
        0
    }
}

/// Where the whitespace, `// ...` line comments and `/* ... */` block
/// comments from `p` end, and the line there. An unterminated comment runs
/// to the end of the input.
pub open spec fn skip_trivia(b: Seq<u8>, p: int, line: int) -> (int, int)
    decreases b.len() - p,
{
    let (q, l) = ws_run(b, p, line);
    if has_prefix_at(b, q, seq![47u8, 47u8]) {
        match find_byte(b, q, 10) {
            Some(e) => if p < e + 1 <= b.len() {
                skip_trivia(b, e + 1, l + 1)
            } else {
                (q, l)
            },
            None => (b.len() as int, l),
        }
    } else if has_prefix_at(b, q, seq![47u8, 42u8]) {
        match find_close(b, q + 2) {
            Some(e) => if p < e + 2 <= b.len() {
                skip_trivia(b, e + 2, l + count_newlines(b, q + 2, e))
            } else {
                (q, l)
            },
            None => (b.len() as int, l),
        }
    } else {
        (q, l)
    }
}

/// The bytes an identifier is made of: ASCII letters and digits, `_`, `.`,
/// `\` and `-`.
pub open spec fn is_ident_byte(c: u8) -> bool {
    (48 <= c <= 57) || (65 <= c <= 90) || (97 <= c <= 122) || c == 95 || c == 46 || c == 92 || c == 45
}

/// Where the run of identifier bytes from `p` ends.
pub open spec fn ident_end(b: Seq<u8>, p: int) -> int
    decreases b.len() - p,
{
    if 0 <= p < b.len() && is_ident_byte(b[p]) {
        ident_end(b, p + 1)
    } else {
        p
    }
}

/// The bytes that continue a word: ASCII letters and digits, `_` and `.`.
pub open spec fn is_word_byte(c: u8) -> bool {
    (48 <= c <= 57) || (65 <= c <= 90) || (97 <= c <= 122) || c == 95 || c == 46
}

/// The end of the word `s` where it stands at `p` and no word byte follows.
pub open spec fn word_consumed(b: Seq<u8>, p: int, s: Seq<u8>) -> Option<int> {
    if has_prefix_at(b, p, s) && !(p + s.len() < b.len() && is_word_byte(b[p + s.len()])) {
        Some(p + s.len())
    } else {
        None
    }
}

/// The bytes a number runs over after its sign: digits, `.`, `e`, `E`,
/// `-` and `+`.
pub open spec fn is_number_byte(c: u8) -> bool {
    (48 <= c <= 57) || c == 46 || c == 101 || c == 69 || c == 45 || c == 43
}

/// Where the run of number bytes from `p` ends.
pub open spec fn number_end(b: Seq<u8>, p: int) -> int
    decreases b.len() - p,
{
    if 0 <= p < b.len() && is_number_byte(b[p]) {
        number_end(b, p + 1)
    } else {
        p
    }
}

/// The identifier at `q`, as a value.
pub open spec fn ident_value(b: Seq<u8>, q: int, l: int) -> Result<(KvValM, int, int), KvErr> {
    let e = ident_end(b, q);
    if e == q {
        Err((l, KvErrM::UnexpectedEnd))
    } else {
        Ok((KvValM::Ident(b.subrange(q, e)), e, l))
    }
}

/// The value after `p`: a quoted string, `TRUE`/`FALSE`, a number, or an
/// identifier; with the position and line after it.
pub open spec fn value_m(b: Seq<u8>, p: int, line: int) -> Result<(KvValM, int, int), KvErr> {
    let (q, l) = skip_trivia(b, p, line);
    if !(0 <= q < b.len()) {
        Err((l, KvErrM::UnexpectedEnd))
    } else {
        let c = b[q];
        if c == 34 {
            match find_byte(b, q + 1, 34) {
                Some(e) => Ok((KvValM::Str(b.subrange(q + 1, e)), e + 1, l)),
                None => Err((l, KvErrM::UnterminatedString)),
            }
        } else if c == 84 || c == 116 {
            match word_consumed(b, q, "TRUE".spec_bytes()) {
                Some(e) => Ok((KvValM::Bool(true), e, l)),
                None => ident_value(b, q, l),
            }
        } else if c == 70 || c == 102 {
            match word_consumed(b, q, "FALSE".spec_bytes()) {
                Some(e) => Ok((KvValM::Bool(false), e, l)),
                None => ident_value(b, q, l),
            }
        } else if (48 <= c <= 57) || c == 45 || c == 43 || c == 46 {
            let k = if c == 45 || c == 43 {
                q + 1
            } else {
                q
            };
            let e = number_end(b, k);
            Ok((KvValM::Number(b.subrange(q, e)), e, l))
        } else {
            ident_value(b, q, l)
        }
    }
}

/// The keyword that closes a block opened by `kw`, if `kw` opens one.
pub open spec fn block_end_kw(kw: Seq<u8>) -> Option<Seq<u8>> {
    if kw == "NewThing".spec_bytes() {
        Some("EndThing".spec_bytes())
    } else if kw == "XXXSectionStart".spec_bytes() {
        Some("XXXSectionEnd".spec_bytes())
    } else if kw == "NewMap".spec_bytes() {
        Some("EndMap".spec_bytes())
    } else if kw == "NewRegion".spec_bytes() {
        Some("EndRegion".spec_bytes())
    } else {
        None
    }
}

/// Whether the first word at `q` (up to whitespace, `;` or the end) is `kw`.
pub open spec fn first_word_is(b: Seq<u8>, q: int, kw: Seq<u8>) -> bool {
    has_prefix_at(b, q, kw) && (q + kw.len() == b.len() || ws_width(b, q + kw.len()) > 0 || b[q + kw.len()]
        == 59)
}

/// The `;` after `p`, and the position and line after it.
pub open spec fn semicolon_m(b: Seq<u8>, p: int, line: int) -> Result<(int, int), KvErr> {
    let (q, l) = skip_trivia(b, p, line);
    if 0 <= q < b.len() && b[q] == 59 {
        Ok((q + 1, l))
    } else {
        Err((l, KvErrM::ExpectedSemicolon))
    }
}

/// The statement after `p`, with the position and line after it.
#[verifier::opaque]
pub open spec fn statement_m(b: Seq<u8>, p: int, line: int) -> Result<(KvStmtM, int, int), KvErr>
    decreases b.len() - p, 0int,
{
    let (q, l) = skip_trivia(b, p, line);
    let e = ident_end(b, q);
    if !(0 <= q < b.len()) || e == q {
        Err((l, KvErrM::UnexpectedEnd))
    } else {
        let ident = b.subrange(q, e);
        match block_end_kw(ident) {
            Some(end_kw) => {
                let (ks, l1) = skip_trivia(b, e, l);
                let ke = ident_end(b, ks);
                if ke == ks {
                    Err((l1, KvErrM::UnexpectedEnd))
                } else {
                    match semicolon_m(b, ke, l1) {
                        Err(x) => Err(x),
                        Ok((s, l2)) => if p < s <= b.len() {
                            match block_m(b, s, l2, end_kw) {
                                Ok((body, pe, le)) => Ok((KvStmtM::Block(ident, b.subrange(ks, ke), body), pe, le)),
                                Err(x) => Err(x),
                            }
                        } else {
                            Err((l2, KvErrM::UnexpectedEnd))
                        },
                    }
                }
            },
            None => {
                let (q2, l2) = skip_trivia(b, e, l);
                if 0 <= q2 < b.len() && b[q2] == 59 {
                    Ok((KvStmtM::Field(ident, KvValM::Ident(Seq::empty())), q2 + 1, l2))
                } else {
                    match value_m(b, q2, l2) {
                        Err(x) => Err(x),
                        Ok((v, e2, l3)) => match semicolon_m(b, e2, l3) {
                            Err(x) => Err(x),
                            Ok((s, l4)) => Ok((KvStmtM::Field(ident, v), s, l4)),
                        },
                    }
                }
            },
        }
    }
}

/// The statements of a block from `p` up to and including its closing
/// keyword `end_kw` and `;` (or the end of the input), with the position
/// and line after them.
pub open spec fn block_m(b: Seq<u8>, p: int, line: int, end_kw: Seq<u8>) -> Result<(Seq<KvStmtM>, int, int), KvErr>
    decreases b.len() - p, 1int,
{
    let (q, l) = skip_trivia(b, p, line);
    if !(p <= q <= b.len()) || q == b.len() {
        Ok((Seq::empty(), q, l))
    } else if first_word_is(b, q, end_kw) {
        let e = ident_end(b, q);
        if e == q {
            Err((l, KvErrM::UnexpectedEnd))
        } else if b.subrange(q, e) != end_kw {
            Err((l, KvErrM::Unexpected("expected identifier"@)))
        } else {
            match semicolon_m(b, e, l) {
                Ok((s, l2)) => Ok((Seq::empty(), s, l2)),
                Err(x) => Err(x),
            }
        }
    } else {
        match statement_m(b, q, l) {
            Err(x) => Err(x),
            Ok((st, e, l2)) => if q < e <= b.len() {
                match block_m(b, e, l2, end_kw) {
                    Ok((rest, pe, le)) => Ok((seq![st] + rest, pe, le)),
                    Err(x) => Err(x),
                }
            } else {
                Err((l2, KvErrM::UnexpectedEnd))
            },
        }
    }
}

/// The statements from `p` to the end of the input or a top-level
/// `XXXSectionEnd`, with the position and line where parsing stopped.
pub open spec fn statements_m(b: Seq<u8>, p: int, line: int) -> Result<(Seq<KvStmtM>, int, int), KvErr>
    decreases b.len() - p,
{
    if !(0 <= p < b.len()) {
        Ok((Seq::empty(), p, line))
    } else {
        let (q, l) = skip_trivia(b, p, line);
        if !(p <= q < b.len()) {
            Ok((Seq::empty(), q, l))
        } else {
            match word_consumed(b, q, "XXXSectionEnd".spec_bytes()) {
                Some(e) => Ok((Seq::empty(), e, l)),
                None => match statement_m(b, q, l) {
                    Err(x) => Err(x),
                    Ok((st, e, l2)) => if q < e <= b.len() {
                        match statements_m(b, e, l2) {
                            Ok((rest, pe, le)) => Ok((seq![st] + rest, pe, le)),
                            Err(x) => Err(x),
                        }
                    } else {
                        Err((l2, KvErrM::UnexpectedEnd))
                    },
                },
            }
        }
    }
}

// ── scanning ──────────────────────────────────────────────────────────────────

/// A position of `b` that a parse may stand at: a character boundary, with
/// no more lines counted than bytes passed.
pub open spec fn at_ok(b: Seq<u8>, p: int, line: int) -> bool {
    &&& 0 <= p <= b.len() < usize::MAX
    &&& is_char_boundary(b, p)
    &&& 1 <= line <= p + 1
}

/// A position at the end, at an ASCII byte or just after one is a character
/// boundary.
proof fn lemma_ascii_boundary(b: Seq<u8>, i: int)
    requires
        valid_utf8(b),
        0 <= i <= b.len(),
        i == b.len() || b[i] < 0x80 || (i > 0 && b[i - 1] < 0x80),
    ensures
        is_char_boundary(b, i),
{
    if i == b.len() {
        vstd::utf8::is_char_boundary_start_end_of_seq(b);
    } else if b[i] < 0x80 {
        vstd::utf8::is_char_boundary_iff_not_is_continuation_byte(b, i);
    } else {
        lemma_boundary_after_ascii(b, i - 1);
    }
}

/// Just past an ASCII word that stands in `b` lies a character boundary.
proof fn lemma_word_end_boundary(b: Seq<u8>, q: int, s: &str)
    requires
        valid_utf8(b),
        has_prefix_at(b, q, s.spec_bytes()),
        vstd::string::is_ascii(s),
        s@.len() > 0,
    ensures
        is_char_boundary(b, q + s.spec_bytes().len()),
{
    vstd::string::is_ascii_spec_bytes(s);
    let n = s@.len() as int;
    assert(b[q + n - 1] == s.spec_bytes()[n - 1]);
    lemma_ascii_boundary(b, q + n);
}

fn ws_run_exec(b: &[u8], p: usize, line: usize) -> (r: (usize, usize))
    requires
        valid_utf8(b@),
        at_ok(b@, p as int, line as int),
    ensures
        (r.0 as int, r.1 as int) == ws_run(b@, p as int, line as int),
        p <= r.0,
        at_ok(b@, r.0 as int, r.1 as int),
        r.1 - line <= r.0 - p,
{
    let n = b.len();
    let mut q = p;
    let mut l = line;
    while q < n
        invariant
            valid_utf8(b@),
            n == b@.len(),
            p <= q,
            at_ok(b@, q as int, l as int),
            l - line <= q - p,
            ws_run(b@, p as int, line as int) == ws_run(b@, q as int, l as int),
        decreases n - q,
    {
        let c = b[q];
        if c == 32 || c == 9 {
            q += 1;
        } else if c == 13 {
            if q + 1 < n && b[q + 1] == 10 {
                q += 2;
            } else {
                q += 1;
            }
            l += 1;
        } else if c == 10 {
            q += 1;
            l += 1;
        } else {
            return (q, l);
        }
        proof {
            lemma_ascii_boundary(b@, q as int);
        }
    }
    (q, l)
}

fn prefix_at(b: &[u8], p: usize, s: &[u8]) -> (r: bool)
    ensures
        r == has_prefix_at(b@, p as int, s@),
{
    if p > b.len() || s.len() > b.len() - p {
        return false;
    }
    let n = b.len();
    let mut i: usize = 0;
    while i < s.len()
        invariant
            n == b@.len(),
            p + s@.len() <= b@.len(),
            i <= s@.len(),
            forall|k: int| 0 <= k < i ==> b@[p + k] == s@[k],
        decreases s@.len() - i,
    {
        if b[p + i] != s[i] {
            assert(b@.subrange(p as int, p + s@.len())[i as int] != s@[i as int]);
            return false;
        }
        i += 1;
    }
    assert(b@.subrange(p as int, p + s@.len()) =~= s@);
    true
}

pub(crate) fn find_byte_exec(b: &[u8], p: usize, c: u8) -> (r: Option<usize>)
    ensures
        match find_byte(b@, p as int, c) {
            Some(e) => r matches Some(x) && x == e,
            None => r is None,
        },
        r matches Some(e) ==> p <= e < b@.len() && b@[e as int] == c,
{
    let mut j = p;
    while j < b.len()
        invariant
            p <= j,
            find_byte(b@, p as int, c) == find_byte(b@, j as int, c),
        decreases b@.len() - j,
    {
        if b[j] == c {
            return Some(j);
        }
        j += 1;
    }
    None
}

fn find_close_exec(b: &[u8], p: usize) -> (r: Option<usize>)
    ensures
        match find_close(b@, p as int) {
            Some(e) => r matches Some(x) && x == e,
            None => r is None,
        },
        r matches Some(e) ==> p <= e && e + 1 < b@.len() && b@[e as int] == 42 && b@[e + 1] == 47,
{
    let mut j = p;
    while j < b.len() && b.len() - j > 1
        invariant
            p <= j,
            find_close(b@, p as int) == find_close(b@, j as int),
        decreases b@.len() - j,
    {
        if b[j] == 42 && b[j + 1] == 47 {
            return Some(j);
        }
        j += 1;
    }
    None
}

fn count_newlines_exec(b: &[u8], s: usize, e: usize) -> (r: usize)
    requires
        s <= e <= b@.len(),
    ensures
        r == count_newlines(b@, s as int, e as int),
        r <= e - s,
{
    let mut acc: usize = 0;
    let mut i = s;
    while i < e
        invariant
            s <= i <= e <= b@.len(),
            acc <= i - s,
            count_newlines(b@, s as int, e as int) == acc + count_newlines(b@, i as int, e as int),
        decreases e - i,
    {
        if b[i] == 10 {
            acc += 1;
        }
        i += 1;
    }
    acc
}

fn skip_trivia_exec(b: &[u8], p: usize, line: usize) -> (r: (usize, usize))
    requires
        valid_utf8(b@),
        at_ok(b@, p as int, line as int),
    ensures
        (r.0 as int, r.1 as int) == skip_trivia(b@, p as int, line as int),
        p <= r.0,
        at_ok(b@, r.0 as int, r.1 as int),
        r.1 - line <= r.0 - p,
{
    let n = b.len();
    let mut q = p;
    let mut l = line;
    loop
        invariant
            valid_utf8(b@),
            n == b@.len(),
            p <= q,
            at_ok(b@, q as int, l as int),
            l - line <= q - p,
            skip_trivia(b@, p as int, line as int) == skip_trivia(b@, q as int, l as int),
        decreases n - q,
    {
        let ghost (q0, l0) = (q as int, l as int);
        let (q1, l1) = ws_run_exec(b, q, l);
        let two = n - q1 >= 2;
        proof {
            if two {
                assert(has_prefix_at(b@, q1 as int, seq![47u8, 47u8]) <==> (b@[q1 as int] == 47 && b@[q1
                    + 1] == 47)) by {
                    if b@[q1 as int] == 47 && b@[q1 + 1] == 47 {
                        assert(b@.subrange(q1 as int, q1 + 2) =~= seq![47u8, 47u8]);
                    }
                }
                assert(has_prefix_at(b@, q1 as int, seq![47u8, 42u8]) <==> (b@[q1 as int] == 47 && b@[q1
                    + 1] == 42)) by {
                    if b@[q1 as int] == 47 && b@[q1 + 1] == 42 {
                        assert(b@.subrange(q1 as int, q1 + 2) =~= seq![47u8, 42u8]);
                    }
                }
            }
        }
        if two && b[q1] == 47 && b[q1 + 1] == 47 {
            match find_byte_exec(b, q1, 10) {
                Some(e) => {
                    proof {
                        lemma_ascii_boundary(b@, e + 1);
                    }
                    q = e + 1;
                    l = l1 + 1;
                },
                None => {
                    proof {
                        lemma_ascii_boundary(b@, n as int);
                    }
                    return (n, l1);
                },
            }
        } else if two && b[q1] == 47 && b[q1 + 1] == 42 {
            match find_close_exec(b, q1 + 2) {
                Some(e) => {
                    let k = count_newlines_exec(b, q1 + 2, e);
                    proof {
                        lemma_ascii_boundary(b@, e + 2);
                    }
                    q = e + 2;
                    l = l1 + k;
                },
                None => {
                    proof {
                        lemma_ascii_boundary(b@, n as int);
                    }
                    return (n, l1);
                },
            }
        } else {
            return (q1, l1);
        }
    }
}

fn is_ident_byte_exec(c: u8) -> (r: bool)
    ensures
        r == is_ident_byte(c),
{
    (48 <= c && c <= 57) || (65 <= c && c <= 90) || (97 <= c && c <= 122) || c == 95 || c == 46 || c == 92
        || c == 45
}

fn ident_end_exec(b: &[u8], p: usize) -> (r: usize)
    requires
        valid_utf8(b@),
        p <= b@.len(),
        is_char_boundary(b@, p as int),
    ensures
        r == ident_end(b@, p as int),
        p <= r <= b@.len(),
        is_char_boundary(b@, r as int),
        forall|k: int| p <= k < r ==> is_ident_byte(#[trigger] b@[k]),
{
    let mut q = p;
    while q < b.len() && is_ident_byte_exec(b[q])
        invariant
            valid_utf8(b@),
            p <= q <= b@.len(),
            is_char_boundary(b@, q as int),
            ident_end(b@, p as int) == ident_end(b@, q as int),
            forall|k: int| p <= k < q ==> is_ident_byte(#[trigger] b@[k]),
        decreases b@.len() - q,
    {
        q += 1;
        proof {
            lemma_ascii_boundary(b@, q as int);
        }
    }
    q
}

fn number_end_exec(b: &[u8], p: usize) -> (r: usize)
    requires
        valid_utf8(b@),
        p <= b@.len(),
        is_char_boundary(b@, p as int),
    ensures
        r == number_end(b@, p as int),
        p <= r <= b@.len(),
        is_char_boundary(b@, r as int),
        p < b@.len() && is_number_byte(b@[p as int]) ==> p < r,
{
    let mut q = p;
    while q < b.len() && ((48 <= b[q] && b[q] <= 57) || b[q] == 46 || b[q] == 101 || b[q] == 69 || b[q] == 45
        || b[q] == 43)
        invariant
            valid_utf8(b@),
            p <= q <= b@.len(),
            is_char_boundary(b@, q as int),
            number_end(b@, p as int) == number_end(b@, q as int),
        decreases b@.len() - q,
    {
        q += 1;
        proof {
            lemma_ascii_boundary(b@, q as int);
        }
    }
    q
}

fn word_consumed_exec(b: &[u8], p: usize, s: &str) -> (r: Option<usize>)
    requires
        p <= b@.len(),
    ensures
        match word_consumed(b@, p as int, s.spec_bytes()) {
            Some(e) => r matches Some(x) && x == e,
            None => r is None,
        },
{
    let w = s.as_bytes();
    if !prefix_at(b, p, w) {
        return None;
    }
    let n = b.len();
    assert(p + w@.len() <= n);
    let e = p + w.len();
    if e < b.len() {
        let c = b[e];
        if (48 <= c && c <= 57) || (65 <= c && c <= 90) || (97 <= c && c <= 122) || c == 95 || c == 46 {
            return None;
        }
    }
    Some(e)
}

fn block_end_kw_exec(kw: &str) -> (r: Option<&'static str>)
    ensures
        match block_end_kw(kw.spec_bytes()) {
            Some(e) => r matches Some(x) && x.spec_bytes() == e,
            None => r is None,
        },
{
    if str_eq(kw, "NewThing") {
        Some("EndThing")
    } else if str_eq(kw, "XXXSectionStart") {
        Some("XXXSectionEnd")
    } else if str_eq(kw, "NewMap") {
        Some("EndMap")
    } else if str_eq(kw, "NewRegion") {
        Some("EndRegion")
    } else {
        None
    }
}

fn first_word_is_exec(b: &[u8], q: usize, kw: &str) -> (r: bool)
    requires
        q <= b@.len(),
    ensures
        r == first_word_is(b@, q as int, kw.spec_bytes()),
{
    let w = kw.as_bytes();
    if !prefix_at(b, q, w) {
        return false;
    }
    let n = b.len();
    assert(q + w@.len() <= n);
    let e = q + w.len();
    e == b.len() || ws_width_exec(b, e) > 0 || b[e] == 59
}

// ── matching the model ────────────────────────────────────────────────────────

/// The value `v` is the model's `m`.
pub open spec fn val_matches(v: KvValue, m: KvValM) -> bool {
    match v {
        KvValue::String(s) => m matches KvValM::Str(t) && s.spec_bytes() == t,
        KvValue::Number(s) => m matches KvValM::Number(t) && s.spec_bytes() == t,
        KvValue::Ident(s) => m matches KvValM::Ident(t) && s.spec_bytes() == t,
        KvValue::Bool(x) => m matches KvValM::Bool(y) && x == y,
    }
}

/// The statement `s` is the model's `m`.
pub open spec fn stmt_matches(s: KvStatement, m: KvStmtM) -> bool
    decreases s,
{
    match s {
        KvStatement::Field(n, v) => m matches KvStmtM::Field(mn, mv) && n.spec_bytes() == mn && val_matches(v, mv),
        KvStatement::Block { keyword, kind, body } => m matches KvStmtM::Block(mk, md, mb) && keyword.spec_bytes()
            == mk && kind.spec_bytes() == md && body@.len() == mb.len() && forall|i: int|
            0 <= i < mb.len() ==> stmt_matches(#[trigger] body@[i], mb[i]),
    }
}

/// The statements `v` are the model's `m`, one for one.
pub open spec fn stmts_match(v: Seq<KvStatement>, m: Seq<KvStmtM>) -> bool {
    v.len() == m.len() && forall|i: int| 0 <= i < m.len() ==> stmt_matches(#[trigger] v[i], m[i])
}

/// The error kind `k` is the model's `m`.
pub open spec fn kind_matches(k: KvErrorKind, m: KvErrM) -> bool {
    match k {
        KvErrorKind::UnexpectedEnd => m is UnexpectedEnd,
        KvErrorKind::UnterminatedString => m is UnterminatedString,
        KvErrorKind::Unexpected(s) => m matches KvErrM::Unexpected(t) && s@ == t,
        KvErrorKind::ExpectedSemicolon => m is ExpectedSemicolon,
    }
}

/// The error `e` is the model's `m`.
pub open spec fn err_matches(e: KvError, m: KvErr) -> bool {
    e.line == m.0 && kind_matches(e.inner, m.1)
}

impl KvError {
    pub fn new(line: usize, inner: KvErrorKind) -> (r: Self)
        ensures
            r.line == line,
            r.inner == inner,
    {
        KvError { line, inner }
    }
}

// ── parsing ───────────────────────────────────────────────────────────────────

fn ident_value_exec<'a>(input: &'a str, b: &[u8], q: usize, l: usize) -> (r: Result<(KvValue<'a>, usize, usize), KvError>)
    requires
        b@ == input.spec_bytes(),
        at_ok(b@, q as int, l as int),
    ensures
        match ident_value(b@, q as int, l as int) {
            Ok((v, e, l2)) => r matches Ok((x, e2, l3)) && val_matches(x, v) && e2 == e && l3 == l2 && at_ok(
                b@,
                e2 as int,
                l3 as int,
            ) && q < e2,
            Err(x) => r matches Err(y) && err_matches(y, x),
        },
{
    proof {
        vstd::utf8::encode_utf8_valid_utf8(input@);
    }
    let e = ident_end_exec(b, q);
    if e == q {
        return Err(KvError::new(l, KvErrorKind::UnexpectedEnd));
    }
    Ok((KvValue::Ident(slice_at(input, q, e)), e, l))
}

/// The value after `p` (see [`value_m`]).
fn value_at<'a>(input: &'a str, b: &[u8], p: usize, line: usize) -> (r: Result<(KvValue<'a>, usize, usize), KvError>)
    requires
        b@ == input.spec_bytes(),
        at_ok(b@, p as int, line as int),
    ensures
        match value_m(b@, p as int, line as int) {
            Ok((v, e, l)) => r matches Ok((x, e2, l2)) && val_matches(x, v) && e2 == e && l2 == l && at_ok(
                b@,
                e2 as int,
                l2 as int,
            ) && p < e2,
            Err(x) => r matches Err(y) && err_matches(y, x),
        },
{
    proof {
        vstd::utf8::encode_utf8_valid_utf8(input@);
    }
    let (q, l) = skip_trivia_exec(b, p, line);
    if q >= b.len() {
        return Err(KvError::new(l, KvErrorKind::UnexpectedEnd));
    }
    let c = b[q];
    if c == 34 {
        proof {
            lemma_ascii_boundary(b@, q + 1);
        }
        match find_byte_exec(b, q + 1, 34) {
            Some(e) => {
                proof {
                    lemma_ascii_boundary(b@, e as int);
                    lemma_ascii_boundary(b@, e + 1);
                }
                Ok((KvValue::String(slice_at(input, q + 1, e)), e + 1, l))
            },
            None => Err(KvError::new(l, KvErrorKind::UnterminatedString)),
        }
    } else if c == 84 || c == 116 {
        match word_consumed_exec(b, q, "TRUE") {
            Some(e) => {
                proof {
                    reveal_strlit("TRUE");
                    lemma_word_end_boundary(b@, q as int, "TRUE");
                }
                Ok((KvValue::Bool(true), e, l))
            },
            None => ident_value_exec(input, b, q, l),
        }
    } else if c == 70 || c == 102 {
        match word_consumed_exec(b, q, "FALSE") {
            Some(e) => {
                proof {
                    reveal_strlit("FALSE");
                    lemma_word_end_boundary(b@, q as int, "FALSE");
                }
                Ok((KvValue::Bool(false), e, l))
            },
            None => ident_value_exec(input, b, q, l),
        }
    } else if (48 <= c && c <= 57) || c == 45 || c == 43 || c == 46 {
        let k = if c == 45 || c == 43 {
            q + 1
        } else {
            q
        };
        proof {
            lemma_ascii_boundary(b@, k as int);
        }
        let e = number_end_exec(b, k);
        proof {
            lemma_ascii_boundary(b@, q as int);
        }
        Ok((KvValue::Number(slice_at(input, q, e)), e, l))
    } else {
        ident_value_exec(input, b, q, l)
    }
}

/// The statements `acc` in front of those of a parse result.
pub open spec fn prepend_stmts(acc: Seq<KvStmtM>, r: Result<(Seq<KvStmtM>, int, int), KvErr>) -> Result<
    (Seq<KvStmtM>, int, int),
    KvErr,
> {
    match r {
        Ok((rest, e, l)) => Ok((acc + rest, e, l)),
        Err(x) => Err(x),
    }
}

fn semicolon_at(b: &[u8], p: usize, line: usize) -> (r: Result<(usize, usize), KvError>)
    requires
        valid_utf8(b@),
        at_ok(b@, p as int, line as int),
    ensures
        match semicolon_m(b@, p as int, line as int) {
            Ok((s, l)) => r matches Ok((s2, l2)) && s2 == s && l2 == l && at_ok(b@, s2 as int, l2 as int) && p < s2,
            Err(x) => r matches Err(y) && err_matches(y, x),
        },
{
    let (q, l) = skip_trivia_exec(b, p, line);
    if q < b.len() && b[q] == 59 {
        proof {
            lemma_ascii_boundary(b@, q + 1);
        }
        Ok((q + 1, l))
    } else {
        Err(KvError::new(l, KvErrorKind::ExpectedSemicolon))
    }
}

/// The statement after `p` (see [`statement_m`]).
fn statement_at<'a>(input: &'a str, b: &[u8], p: usize, line: usize) -> (r: Result<(KvStatement<'a>, usize, usize), KvError>)
    requires
        b@ == input.spec_bytes(),
        at_ok(b@, p as int, line as int),
    ensures
        match statement_m(b@, p as int, line as int) {
            Ok((st, e, l)) => r matches Ok((x, e2, l2)) && stmt_matches(x, st) && e2 == e && l2 == l && at_ok(
                b@,
                e2 as int,
                l2 as int,
            ) && p < e2,
            Err(x) => r matches Err(y) && err_matches(y, x),
        },
    decreases b@.len() - p, 0int,
{
    proof {
        vstd::utf8::encode_utf8_valid_utf8(input@);
        reveal(statement_m);
    }
    let (q, l) = skip_trivia_exec(b, p, line);
    if q >= b.len() {
        return Err(KvError::new(l, KvErrorKind::UnexpectedEnd));
    }
    let e = ident_end_exec(b, q);
    if e == q {
        return Err(KvError::new(l, KvErrorKind::UnexpectedEnd));
    }
    let ident = slice_at(input, q, e);
    match block_end_kw_exec(ident) {
        Some(end_kw) => {
            let (ks, l1) = skip_trivia_exec(b, e, l);
            let ke = ident_end_exec(b, ks);
            if ke == ks {
                return Err(KvError::new(l1, KvErrorKind::UnexpectedEnd));
            }
            let kind = slice_at(input, ks, ke);
            let (s, l2) = match semicolon_at(b, ke, l1) {
                Ok(v) => v,
                Err(x) => {
                    return Err(x);
                },
            };
            match block_at(input, b, s, l2, end_kw) {
                Ok((body, pe, le)) => Ok((KvStatement::Block { keyword: ident, kind, body }, pe, le)),
                Err(x) => Err(x),
            }
        },
        None => {
            let (q2, l2) = skip_trivia_exec(b, e, l);
            if q2 < b.len() && b[q2] == 59 {
                proof {
                    lemma_ascii_boundary(b@, q2 + 1);
                }
                let empty = slice_at(input, q2, q2);
                assert(empty.spec_bytes() =~= Seq::<u8>::empty());
                return Ok((KvStatement::Field(ident, KvValue::Ident(empty)), q2 + 1, l2));
            }
            let (v, e2, l3) = match value_at(input, b, q2, l2) {
                Ok(x) => x,
                Err(x) => {
                    return Err(x);
                },
            };
            match semicolon_at(b, e2, l3) {
                Ok((s, l4)) => Ok((KvStatement::Field(ident, v), s, l4)),
                Err(x) => Err(x),
            }
        },
    }
}

proof fn lemma_block_step(b: Seq<u8>, c: int, l: int, kw: Seq<u8>, q: int, l1: int, st: KvStmtM, e: int, l2: int)
    requires
        0 <= c,
        skip_trivia(b, c, l) == (q, l1),
        c <= q < b.len(),
        !first_word_is(b, q, kw),
        statement_m(b, q, l1) == Ok::<(KvStmtM, int, int), KvErr>((st, e, l2)),
        q < e <= b.len(),
    ensures
        block_m(b, c, l, kw) == prepend_stmts(seq![st], block_m(b, e, l2, kw)),
{
    reveal(statement_m);
}

/// The statements of a block up to its closing `end_kw` (see [`block_m`]).
fn block_at<'a>(input: &'a str, b: &[u8], p: usize, line: usize, end_kw: &str) -> (r: Result<
    (Vec<KvStatement<'a>>, usize, usize),
    KvError,
>)
    requires
        b@ == input.spec_bytes(),
        at_ok(b@, p as int, line as int),
    ensures
        match block_m(b@, p as int, line as int, end_kw.spec_bytes()) {
            Ok((ss, e, l)) => r matches Ok((v, e2, l2)) && stmts_match(v@, ss) && e2 == e && l2 == l && at_ok(
                b@,
                e2 as int,
                l2 as int,
            ) && p <= e2,
            Err(x) => r matches Err(y) && err_matches(y, x),
        },
    decreases b@.len() - p, 1int,
{
    proof {
        vstd::utf8::encode_utf8_valid_utf8(input@);
    }
    let ghost kw = end_kw.spec_bytes();
    let mut body: Vec<KvStatement<'a>> = Vec::new();
    let ghost mut acc: Seq<KvStmtM> = Seq::empty();
    let mut c = p;
    let mut l = line;
    loop
        invariant
            b@ == input.spec_bytes(),
            valid_utf8(b@),
            kw == end_kw.spec_bytes(),
            p <= c,
            at_ok(b@, c as int, l as int),
            stmts_match(body@, acc),
            block_m(b@, p as int, line as int, kw) == prepend_stmts(acc, block_m(b@, c as int, l as int, kw)),
        decreases b@.len() - c,
    {
        let (q, l1) = skip_trivia_exec(b, c, l);
        if q == b.len() {
            assert(acc + Seq::<KvStmtM>::empty() =~= acc);
            return Ok((body, q, l1));
        }
        if first_word_is_exec(b, q, end_kw) {
            let e = ident_end_exec(b, q);
            if e == q {
                return Err(KvError::new(l1, KvErrorKind::UnexpectedEnd));
            }
            let word = slice_at(input, q, e);
            if !str_eq(word, end_kw) {
                return Err(KvError::new(l1, KvErrorKind::Unexpected("expected identifier".to_string())));
            }
            match semicolon_at(b, e, l1) {
                Ok((s, l2)) => {
                    assert(acc + Seq::<KvStmtM>::empty() =~= acc);
                    return Ok((body, s, l2));
                },
                Err(x) => {
                    return Err(x);
                },
            }
        }
        let (st, e, l2) = match statement_at(input, b, q, l1) {
            Ok(x) => x,
            Err(x) => {
                proof {
                    reveal(statement_m);
                }
                return Err(x);
            },
        };
        let ghost stm = match statement_m(b@, q as int, l1 as int) {
            Ok((m, _, _)) => m,
            Err(_) => arbitrary(),
        };
        body.push(st);
        proof {
            lemma_block_step(b@, c as int, l as int, kw, q as int, l1 as int, stm, e as int, l2 as int);
            assert(acc.push(stm) + block_m(b@, e as int, l2 as int, kw)->Ok_0.0 =~= acc + (seq![stm] + block_m(
                b@,
                e as int,
                l2 as int,
                kw,
            )->Ok_0.0));
            acc = acc.push(stm);
        }
        c = e;
        l = l2;
    }
}

proof fn lemma_statements_step(b: Seq<u8>, c: int, l: int, q: int, l1: int, st: KvStmtM, e: int, l2: int)
    requires
        0 <= c < b.len(),
        skip_trivia(b, c, l) == (q, l1),
        c <= q < b.len(),
        word_consumed(b, q, "XXXSectionEnd".spec_bytes()) is None,
        statement_m(b, q, l1) == Ok::<(KvStmtM, int, int), KvErr>((st, e, l2)),
        q < e <= b.len(),
    ensures
        statements_m(b, c, l) == prepend_stmts(seq![st], statements_m(b, e, l2)),
{
}

/// The statements up to the end of the input or a top-level
/// `XXXSectionEnd` (see [`statements_m`]).
fn statements_at<'a>(input: &'a str, b: &[u8], p: usize, line: usize) -> (r: Result<
    (Vec<KvStatement<'a>>, usize, usize),
    KvError,
>)
    requires
        b@ == input.spec_bytes(),
        at_ok(b@, p as int, line as int),
    ensures
        match statements_m(b@, p as int, line as int) {
            Ok((ss, e, l)) => r matches Ok((v, e2, l2)) && stmts_match(v@, ss) && e2 == e && l2 == l && at_ok(
                b@,
                e2 as int,
                l2 as int,
            ) && p <= e2,
            Err(x) => r matches Err(y) && err_matches(y, x),
        },
{
    proof {
        vstd::utf8::encode_utf8_valid_utf8(input@);
    }
    let mut stmts: Vec<KvStatement<'a>> = Vec::new();
    let ghost mut acc: Seq<KvStmtM> = Seq::empty();
    let mut c = p;
    let mut l = line;
    while c < b.len()
        invariant
            b@ == input.spec_bytes(),
            valid_utf8(b@),
            p <= c,
            at_ok(b@, c as int, l as int),
            stmts_match(stmts@, acc),
            statements_m(b@, p as int, line as int) == prepend_stmts(acc, statements_m(b@, c as int, l as int)),
        decreases b@.len() - c,
    {
        let (q, l1) = skip_trivia_exec(b, c, l);
        if q >= b.len() {
            assert(acc + Seq::<KvStmtM>::empty() =~= acc);
            return Ok((stmts, q, l1));
        }
        match word_consumed_exec(b, q, "XXXSectionEnd") {
            Some(e) => {
                proof {
                    reveal_strlit("XXXSectionEnd");
                    lemma_word_end_boundary(b@, q as int, "XXXSectionEnd");
                }
                assert(acc + Seq::<KvStmtM>::empty() =~= acc);
                return Ok((stmts, e, l1));
            },
            None => {},
        }
        let (st, e, l2) = match statement_at(input, b, q, l1) {
            Ok(x) => x,
            Err(x) => {
                return Err(x);
            },
        };
        let ghost stm = match statement_m(b@, q as int, l1 as int) {
            Ok((m, _, _)) => m,
            Err(_) => arbitrary(),
        };
        stmts.push(st);
        proof {
            lemma_statements_step(b@, c as int, l as int, q as int, l1 as int, stm, e as int, l2 as int);
            assert(acc.push(stm) + statements_m(b@, e as int, l2 as int)->Ok_0.0 =~= acc + (seq![stm]
                + statements_m(b@, e as int, l2 as int)->Ok_0.0));
            acc = acc.push(stm);
        }
        c = e;
        l = l2;
    }
    assert(acc + Seq::<KvStmtM>::empty() =~= acc);
    Ok((stmts, c, l))
}

/// A parser over a key-value text, at a position and line.
pub struct KvParser<'a> {
    input: &'a str,
    pos: usize,
    line: usize,
}

impl<'a> KvParser<'a> {
    #[verifier::type_invariant]
    spec fn well_placed(self) -> bool {
        at_ok(self.input.spec_bytes(), self.pos as int, self.line as int)
    }

    /// The text being parsed.
    pub closed spec fn text(self) -> &'a str {
        self.input
    }

    /// The byte position reached.
    pub closed spec fn position(self) -> int {
        self.pos as int
    }

    /// The line reached, counting from 1.
    pub closed spec fn line_number(self) -> int {
        self.line as int
    }

    /// A parser at the start of `input`, on line 1.
    pub fn new(input: &'a str) -> (r: Self)
        requires
            input.spec_bytes().len() < usize::MAX,
        ensures
            r.text() == input,
            r.position() == 0,
            r.line_number() == 1,
    {
        proof {
            vstd::utf8::encode_utf8_valid_utf8(input@);
            vstd::utf8::is_char_boundary_start_end_of_seq(input.spec_bytes());
        }
        KvParser { input, pos: 0, line: 1 }
    }

    /// The text not parsed yet.
    pub fn rest(&self) -> (r: &str)
        ensures
            r.spec_bytes() == self.text().spec_bytes().skip(self.position()),
    {
        proof {
            use_type_invariant(self);
            vstd::utf8::encode_utf8_valid_utf8(self.input@);
            vstd::utf8::is_char_boundary_start_end_of_seq(self.input.spec_bytes());
        }
        let r = slice_at(self.input, self.pos, self.input.len());
        assert(r.spec_bytes() =~= self.input.spec_bytes().skip(self.pos as int));
        r
    }

    /// Whether the whole text has been parsed.
    pub fn is_eof(&self) -> (r: bool)
        ensures
            r == (self.position() >= self.text().spec_bytes().len()),
    {
        proof {
            use_type_invariant(self);
        }
        self.pos >= self.input.len()
    }

    /// Parses statements until the end of the text or a top-level
    /// `XXXSectionEnd` (see [`statements_m`]).
    pub fn parse_statements(&mut self) -> (r: Result<Vec<KvStatement<'a>>, KvError>)
        ensures
            final(self).text() == old(self).text(),
            match statements_m(old(self).text().spec_bytes(), old(self).position(), old(self).line_number()) {
                Ok((ss, e, l)) => r matches Ok(v) && stmts_match(v@, ss) && final(self).position() == e
                    && final(self).line_number() == l,
                Err(x) => r matches Err(y) && err_matches(y, x),
            },
    {
        proof {
            use_type_invariant(&*self);
        }
        let b = self.input.as_bytes();
        match statements_at(self.input, b, self.pos, self.line) {
            Ok((v, e, l)) => {
                self.pos = e;
                self.line = l;
                Ok(v)
            },
            Err(x) => Err(x),
        }
    }
}

/// The message of each error kind.
pub open spec fn kind_message(k: KvErrM) -> Seq<char> {
    match k {
        KvErrM::UnexpectedEnd => "unexpected end of input"@,
        KvErrM::UnterminatedString => "unterminated string"@,
        KvErrM::Unexpected(s) => "unexpected token: "@ + s,
        KvErrM::ExpectedSemicolon => "expected semicolon"@,
    }
}

/// The view of an error kind in the model.
pub open spec fn kind_m(k: KvErrorKind) -> KvErrM {
    match k {
        KvErrorKind::UnexpectedEnd => KvErrM::UnexpectedEnd,
        KvErrorKind::UnterminatedString => KvErrM::UnterminatedString,
        KvErrorKind::Unexpected(s) => KvErrM::Unexpected(s@),
        KvErrorKind::ExpectedSemicolon => KvErrM::ExpectedSemicolon,
    }
}

impl KvErrorKind {
    /// The message describing this error.
    pub fn to_string(&self) -> (r: String)
        ensures
            r@ == kind_message(kind_m(*self)),
    {
        match self {
            KvErrorKind::UnexpectedEnd => "unexpected end of input".to_owned(),
            KvErrorKind::UnterminatedString => "unterminated string".to_owned(),
            KvErrorKind::Unexpected(s) => {
                let mut m = "unexpected token: ".to_owned();
                m.append(s.as_str());
                m
            },
            KvErrorKind::ExpectedSemicolon => "expected semicolon".to_owned(),
        }
    }
}

impl KvError {
    /// The message describing this error, with its line.
    pub fn to_string(&self) -> (r: String)
        ensures
            r@ == "parse error at line "@ + dec_chars(self.line as nat) + ": "@ + kind_message(kind_m(self.inner)),
    {
        let mut m = "parse error at line ".to_owned();
        m.append(format_u64(self.line as u64).as_str());
        m.append(": ");
        m.append(self.inner.to_string().as_str());
        m
    }
}

} // verus!
