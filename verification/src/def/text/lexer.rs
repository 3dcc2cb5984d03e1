//! A unified tokenizer for the text-def and header grammars.
//!
//! The lexer *classifies and delimits*; it never interprets payloads. Numbers
//! stay raw (`TokenKind::Number`, value = the source slice) and strings keep
//! their quotes (`TokenKind::Str`). Trivia — whitespace (including `\r`), `//`
//! line comments, `/* */` block comments, and decorative *banner* lines
//! (`/*****…` / `*****…` dividers with no closer) — is consumed and never
//! emitted.
//!
//! One lexer serves both grammars. [`lex`] knows the def directives and
//! `#define`/`#ifdef`/`#endif`; the header form ([`lex_header`]) also knows
//! `#ifndef`, `#else` and `#pragma`, which [`lex`] rejects with
//! `UnexpectedChar('#')`.
//!
//! The contracts speak of the input's UTF-8 bytes: [`lex_spec`] is the token
//! stream (kind and byte span of each token) or the first error.

use vstd::prelude::*;
use vstd::string::StringSliceAdditionalSpecFns;
use vstd::utf8::{
    decode_first_scalar, encode_utf8, is_char_boundary, is_continuation_byte,
    length_of_first_scalar, pop_first_scalar, valid_utf8,
};

use super::base::Span;

verus! {

/// A lexical token kind. Flat, `Copy`, payload-free — the raw text lives in
/// [`Token::source`] and the span in [`Token::span`].
#[derive(Copy, Clone, Debug, PartialEq, Eq, Structural)]
pub enum TokenKind {
    Ident,
    Number,
    Str,
    Definition,
    DefinitionTemplate,
    EndDefinition,
    Define,
    Ifdef,
    Ifndef,
    Else,
    Endif,
    Pragma,
    Namespace,
    Enum,
    Dot,
    LBracket,
    RBracket,
    LParen,
    RParen,
    LBrace,
    RBrace,
    Lt,
    Gt,
    Backslash,
    Pipe,
    Plus,
    Shl,
    Eq,
    Comma,
    Semi,
    Eof,
}

/// A token: its kind, its byte span, and the exact source slice it covers.
/// `Str`'s `source` includes the quotes.
#[derive(Copy, Clone, Debug)]
pub struct Token<'a> {
    pub kind: TokenKind,
    pub span: Span,
    pub source: &'a str,
}

/// What went wrong, without the location.
#[derive(Copy, Clone, Debug, PartialEq, Eq, Structural)]
pub enum LexErrorKind {
    UnterminatedString,
    UnterminatedBlockComment,
    UnexpectedChar(char),
}

/// A lex error, always spanned.
#[derive(Copy, Clone, Debug, PartialEq, Eq, Structural)]
pub struct LexError {
    pub kind: LexErrorKind,
    pub span: Span,
}

impl LexErrorKind {
    /// The message describing this error.
    pub fn to_string(&self) -> (r: String)
        ensures
            r@ == lex_error_message(*self),
    {
        match self {
            LexErrorKind::UnterminatedString => String::from_str("unterminated string"),
            LexErrorKind::UnterminatedBlockComment => String::from_str("unterminated block comment"),
            LexErrorKind::UnexpectedChar(c) => char_message(*c),
        }
    }
}

/// The message of each lex error.
pub open spec fn lex_error_message(k: LexErrorKind) -> Seq<char> {
    match k {
        LexErrorKind::UnterminatedString => "unterminated string"@,
        LexErrorKind::UnterminatedBlockComment => "unterminated block comment"@,
        LexErrorKind::UnexpectedChar(c) => unexpected_char_message(c),
    }
}

/// What `{:?}` formatting (`char`'s `Debug`) makes of `c`: the character in
/// single quotes, escaped.
pub uninterp spec fn char_debug_text(c: char) -> Seq<char>;

/// Renders `c` with `{:?}`, std's `Debug` formatting of `char`. Claimed:
/// the result is a function of `c` (named, not spelled out).
#[verifier::external_body]
fn char_debug(c: char) -> (r: String)
    ensures
        r@ == char_debug_text(c),
{
    format!("{:?}", c)
}

/// The message for an unexpected character, which quotes it as Rust's
/// `{:?}` formatting does.
pub open spec fn unexpected_char_message(c: char) -> Seq<char> {
    "unexpected character "@ + char_debug_text(c)
}

/// The message for an unexpected character.
fn char_message(c: char) -> (r: String)
    ensures
        r@ == unexpected_char_message(c),
{
    let mut s = String::from_str("unexpected character ");
    let quoted = char_debug(c);
    s.append(quoted.as_str());
    s
}

// ── the byte-level model ──────────────────────────────────────────────────────

pub open spec fn is_digit(c: u8) -> bool {
    48 <= c <= 57
}

pub open spec fn is_alpha(c: u8) -> bool {
    (65 <= c <= 90) || (97 <= c <= 122)
}

/// `[A-Za-z0-9_]`.
pub open spec fn is_word_byte(c: u8) -> bool {
    is_digit(c) || is_alpha(c) || c == 95
}

/// The width of the whitespace character (Unicode `White_Space`) whose UTF-8
/// encoding starts at `p`, or 0 when none does.
pub open spec fn ws_width(b: Seq<u8>, p: int) -> int {
    if !(0 <= p < b.len()) {
        0
    } else if (9 <= b[p] <= 13) || b[p] == 32 {
        1
    } else if p + 1 < b.len() && b[p] == 0xc2 && (b[p + 1] == 0x85 || b[p + 1] == 0xa0) {
        2
    } else if p + 2 < b.len() && ((b[p] == 0xe1 && b[p + 1] == 0x9a && b[p + 2] == 0x80) || (b[p]
        == 0xe2 && b[p + 1] == 0x80 && ((0x80 <= b[p + 2] <= 0x8a) || b[p + 2] == 0xa8 || b[p + 2]
        == 0xa9 || b[p + 2] == 0xaf)) || (b[p] == 0xe2 && b[p + 1] == 0x81 && b[p + 2] == 0x9f) || (
    b[p] == 0xe3 && b[p + 1] == 0x80 && b[p + 2] == 0x80)) {
        3
    } else {
        0
    }
}

/// Where the run of whitespace starting at `p` ends.
pub open spec fn ws_end(b: Seq<u8>, p: int) -> int
    decreases b.len() - p,
{
    if 0 <= p && ws_width(b, p) > 0 {
        ws_end(b, p + ws_width(b, p))
    } else {
        p
    }
}

/// Just past the next `\n` at or after `p`, or the end of the input.
pub open spec fn line_end(b: Seq<u8>, p: int) -> int
    decreases b.len() - p,
{
    if !(0 <= p < b.len()) {
        p
    } else if b[p] == 10 {
        p + 1
    } else {
        line_end(b, p + 1)
    }
}

/// Whether the line from `p` to the next `\n` holds only `*`, `/`, spaces,
/// tabs and `\r`: a decorative banner.
pub open spec fn decorative(b: Seq<u8>, p: int) -> bool
    decreases b.len() - p,
{
    if !(0 <= p < b.len()) || b[p] == 10 {
        true
    } else if b[p] == 42 || b[p] == 47 || b[p] == 32 || b[p] == 9 || b[p] == 13 {
        decorative(b, p + 1)
    } else {
        false
    }
}

/// The position of the first `*/` at or after `p`, or -1.
pub open spec fn close_from(b: Seq<u8>, p: int) -> int
    decreases b.len() - p,
{
    if !(0 <= p) || p + 1 >= b.len() {
        -1
    } else if b[p] == 42 && b[p + 1] == 47 {
        p
    } else {
        close_from(b, p + 1)
    }
}

/// The position of the first `"` at or after `p`, or -1.
pub open spec fn quote_from(b: Seq<u8>, p: int) -> int
    decreases b.len() - p,
{
    if !(0 <= p < b.len()) {
        -1
    } else if b[p] == 34 {
        p
    } else {
        quote_from(b, p + 1)
    }
}

/// Whether `b[p]`, `b[p + 1]` are `c0`, `c1`.
pub open spec fn starts2(b: Seq<u8>, p: int, c0: u8, c1: u8) -> bool {
    0 <= p && p + 1 < b.len() && b[p] == c0 && b[p + 1] == c1
}

/// A spanned lex error in the model: its kind and its byte range.
pub type LexErr = (LexErrorKind, int, int);

/// Where the trivia starting at `p` ends, or the unterminated block comment
/// met there.
pub open spec fn trivia_end(b: Seq<u8>, p: int) -> Result<int, LexErr>
    decreases b.len() - p,
{
    if !(0 <= p <= b.len()) {
        Ok(p)
    } else {
        let q = ws_end(b, p);
        proof {
            lemma_ws_end(b, p);
        }
        if starts2(b, q, 47, 47) {
            proof {
                lemma_line_end(b, q);
            }
            trivia_end(b, line_end(b, q))
        } else if starts2(b, q, 47, 42) {
            let c = close_from(b, q + 2);
            proof {
                lemma_close_from(b, q + 2);
                lemma_line_end(b, q);
            }
            if c >= 0 {
                trivia_end(b, c + 2)
            } else if decorative(b, q) {
                trivia_end(b, line_end(b, q))
            } else {
                Err((LexErrorKind::UnterminatedBlockComment, q, b.len() as int))
            }
        } else if 0 <= q < b.len() && (b[q] == 42 || b[q] == 47) && decorative(b, q) {
            proof {
                lemma_line_end(b, q);
            }
            trivia_end(b, line_end(b, q))
        } else {
            Ok(q)
        }
    }
}

/// Where the run of `[0-9]` starting at `p` ends.
pub open spec fn digits_end(b: Seq<u8>, p: int) -> int
    decreases b.len() - p,
{
    if 0 <= p < b.len() && is_digit(b[p]) {
        digits_end(b, p + 1)
    } else {
        p
    }
}

/// Where the run of `[A-Za-z0-9_]` starting at `p` ends.
pub open spec fn word_end(b: Seq<u8>, p: int) -> int
    decreases b.len() - p,
{
    if 0 <= p < b.len() && is_word_byte(b[p]) {
        word_end(b, p + 1)
    } else {
        p
    }
}

/// The end of the number starting at `p`: optional `-`, digits, optional
/// `.` and digits, optional `f`.
pub open spec fn number_end(b: Seq<u8>, p: int) -> int {
    let a = if 0 <= p < b.len() && b[p] == 45 {
        p + 1
    } else {
        p
    };
    let d = digits_end(b, a);
    let f = if 0 <= d < b.len() && b[d] == 46 {
        digits_end(b, d + 1)
    } else {
        d
    };
    if 0 <= f < b.len() && b[f] == 102 {
        f + 1
    } else {
        f
    }
}

/// The single-byte punctuation `c` is, if any (`<` is handled apart).
pub open spec fn punct_kind(c: u8) -> Option<TokenKind> {
    if c == 46 {
        Some(TokenKind::Dot)
    } else if c == 91 {
        Some(TokenKind::LBracket)
    } else if c == 93 {
        Some(TokenKind::RBracket)
    } else if c == 40 {
        Some(TokenKind::LParen)
    } else if c == 41 {
        Some(TokenKind::RParen)
    } else if c == 123 {
        Some(TokenKind::LBrace)
    } else if c == 125 {
        Some(TokenKind::RBrace)
    } else if c == 62 {
        Some(TokenKind::Gt)
    } else if c == 92 {
        Some(TokenKind::Backslash)
    } else if c == 124 {
        Some(TokenKind::Pipe)
    } else if c == 43 {
        Some(TokenKind::Plus)
    } else if c == 61 {
        Some(TokenKind::Eq)
    } else if c == 44 {
        Some(TokenKind::Comma)
    } else if c == 59 {
        Some(TokenKind::Semi)
    } else {
        None
    }
}

/// The width of the UTF-8 encoding that the byte `c` leads.
pub open spec fn lead_width(c: u8) -> int {
    if c < 0x80 {
        1
    } else if c < 0xe0 {
        2
    } else if c < 0xf0 {
        3
    } else {
        4
    }
}

/// The character whose encoding starts `s`.
pub open spec fn first_char(s: Seq<u8>) -> char {
    decode_first_scalar(s) as char
}

/// The directive the word `b[p..e]` names, or `None` when it names none;
/// `#ifndef`, `#else` and `#pragma` only when `header` is set.
pub open spec fn directive_kind(b: Seq<u8>, p: int, e: int, header: bool) -> Option<TokenKind> {
    if e - p == 20 && b[p] == 35u8 && b[p + 1] == 100u8 && b[p + 2] == 101u8 && b[p + 3] == 102u8 && b[p + 4] == 105u8 && b[p + 5] == 110u8 && b[p + 6] == 105u8 && b[p + 7] == 116u8 && b[p + 8] == 105u8 && b[p + 9] == 111u8 && b[p + 10] == 110u8 && b[p + 11] == 95u8 && b[p + 12] == 116u8 && b[p + 13] == 101u8 && b[p + 14] == 109u8 && b[p + 15] == 112u8 && b[p + 16] == 108u8 && b[p + 17] == 97u8 && b[p + 18] == 116u8 && b[p + 19] == 101u8 {
        Some(TokenKind::DefinitionTemplate)
    } else if e - p == 11 && b[p] == 35u8 && b[p + 1] == 100u8 && b[p + 2] == 101u8 && b[p + 3] == 102u8 && b[p + 4] == 105u8 && b[p + 5] == 110u8 && b[p + 6] == 105u8 && b[p + 7] == 116u8 && b[p + 8] == 105u8 && b[p + 9] == 111u8 && b[p + 10] == 110u8 {
        Some(TokenKind::Definition)
    } else if e - p == 15 && b[p] == 35u8 && b[p + 1] == 101u8 && b[p + 2] == 110u8 && b[p + 3] == 100u8 && b[p + 4] == 95u8 && b[p + 5] == 100u8 && b[p + 6] == 101u8 && b[p + 7] == 102u8 && b[p + 8] == 105u8 && b[p + 9] == 110u8 && b[p + 10] == 105u8 && b[p + 11] == 116u8 && b[p + 12] == 105u8 && b[p + 13] == 111u8 && b[p + 14] == 110u8 {
        Some(TokenKind::EndDefinition)
    } else if e - p == 7 && b[p] == 35u8 && b[p + 1] == 100u8 && b[p + 2] == 101u8 && b[p + 3] == 102u8 && b[p + 4] == 105u8 && b[p + 5] == 110u8 && b[p + 6] == 101u8 {
        Some(TokenKind::Define)
    } else if e - p == 6 && b[p] == 35u8 && b[p + 1] == 105u8 && b[p + 2] == 102u8 && b[p + 3] == 100u8 && b[p + 4] == 101u8 && b[p + 5] == 102u8 {
        Some(TokenKind::Ifdef)
    } else if e - p == 6 && b[p] == 35u8 && b[p + 1] == 101u8 && b[p + 2] == 110u8 && b[p + 3] == 100u8 && b[p + 4] == 105u8 && b[p + 5] == 102u8 {
        Some(TokenKind::Endif)
    } else if header && e - p == 7 && b[p] == 35u8 && b[p + 1] == 105u8 && b[p + 2] == 102u8 && b[p + 3] == 110u8 && b[p + 4] == 100u8 && b[p + 5] == 101u8 && b[p + 6] == 102u8 {
        Some(TokenKind::Ifndef)
    } else if header && e - p == 5 && b[p] == 35u8 && b[p + 1] == 101u8 && b[p + 2] == 108u8 && b[p + 3] == 115u8 && b[p + 4] == 101u8 {
        Some(TokenKind::Else)
    } else if header && e - p == 7 && b[p] == 35u8 && b[p + 1] == 112u8 && b[p + 2] == 114u8 && b[p + 3] == 97u8 && b[p + 4] == 103u8 && b[p + 5] == 109u8 && b[p + 6] == 97u8 {
        Some(TokenKind::Pragma)
    } else {
        None
    }
}

/// The directive the word `b[p..e]` names (see [`directive_kind`]).
fn directive_kind_exec(b: &[u8], p: usize, e: usize, header: bool) -> (r: Option<TokenKind>)
    requires
        p <= e <= b.len(),
    ensures
        r == directive_kind(b@, p as int, e as int, header),
{
    let n = e - p;
    if n == 20 && b[p + 0] == 35u8 && b[p + 1] == 100u8 && b[p + 2] == 101u8 && b[p + 3] == 102u8 && b[p + 4] == 105u8 && b[p + 5] == 110u8 && b[p + 6] == 105u8 && b[p + 7] == 116u8 && b[p + 8] == 105u8 && b[p + 9] == 111u8 && b[p + 10] == 110u8 && b[p + 11] == 95u8 && b[p + 12] == 116u8 && b[p + 13] == 101u8 && b[p + 14] == 109u8 && b[p + 15] == 112u8 && b[p + 16] == 108u8 && b[p + 17] == 97u8 && b[p + 18] == 116u8 && b[p + 19] == 101u8 {
        Some(TokenKind::DefinitionTemplate)
    } else if n == 11 && b[p + 0] == 35u8 && b[p + 1] == 100u8 && b[p + 2] == 101u8 && b[p + 3] == 102u8 && b[p + 4] == 105u8 && b[p + 5] == 110u8 && b[p + 6] == 105u8 && b[p + 7] == 116u8 && b[p + 8] == 105u8 && b[p + 9] == 111u8 && b[p + 10] == 110u8 {
        Some(TokenKind::Definition)
    } else if n == 15 && b[p + 0] == 35u8 && b[p + 1] == 101u8 && b[p + 2] == 110u8 && b[p + 3] == 100u8 && b[p + 4] == 95u8 && b[p + 5] == 100u8 && b[p + 6] == 101u8 && b[p + 7] == 102u8 && b[p + 8] == 105u8 && b[p + 9] == 110u8 && b[p + 10] == 105u8 && b[p + 11] == 116u8 && b[p + 12] == 105u8 && b[p + 13] == 111u8 && b[p + 14] == 110u8 {
        Some(TokenKind::EndDefinition)
    } else if n == 7 && b[p + 0] == 35u8 && b[p + 1] == 100u8 && b[p + 2] == 101u8 && b[p + 3] == 102u8 && b[p + 4] == 105u8 && b[p + 5] == 110u8 && b[p + 6] == 101u8 {
        Some(TokenKind::Define)
    } else if n == 6 && b[p + 0] == 35u8 && b[p + 1] == 105u8 && b[p + 2] == 102u8 && b[p + 3] == 100u8 && b[p + 4] == 101u8 && b[p + 5] == 102u8 {
        Some(TokenKind::Ifdef)
    } else if n == 6 && b[p + 0] == 35u8 && b[p + 1] == 101u8 && b[p + 2] == 110u8 && b[p + 3] == 100u8 && b[p + 4] == 105u8 && b[p + 5] == 102u8 {
        Some(TokenKind::Endif)
    } else if header && n == 7 && b[p + 0] == 35u8 && b[p + 1] == 105u8 && b[p + 2] == 102u8 && b[p + 3] == 110u8 && b[p + 4] == 100u8 && b[p + 5] == 101u8 && b[p + 6] == 102u8 {
        Some(TokenKind::Ifndef)
    } else if header && n == 5 && b[p + 0] == 35u8 && b[p + 1] == 101u8 && b[p + 2] == 108u8 && b[p + 3] == 115u8 && b[p + 4] == 101u8 {
        Some(TokenKind::Else)
    } else if header && n == 7 && b[p + 0] == 35u8 && b[p + 1] == 112u8 && b[p + 2] == 114u8 && b[p + 3] == 97u8 && b[p + 4] == 103u8 && b[p + 5] == 109u8 && b[p + 6] == 97u8 {
        Some(TokenKind::Pragma)
    } else {
        None
    }
}

/// The kind of the word `b[p..e]`: the keywords `namespace` and `enum`,
/// otherwise an identifier.
pub open spec fn word_kind(b: Seq<u8>, p: int, e: int) -> TokenKind {
    if e - p == 9 && b[p] == 110u8 && b[p + 1] == 97u8 && b[p + 2] == 109u8 && b[p + 3] == 101u8 && b[p + 4] == 115u8 && b[p + 5] == 112u8 && b[p + 6] == 97u8 && b[p + 7] == 99u8 && b[p + 8] == 101u8 {
        TokenKind::Namespace
    } else if e - p == 4 && b[p] == 101u8 && b[p + 1] == 110u8 && b[p + 2] == 117u8 && b[p + 3] == 109u8 {
        TokenKind::Enum
    } else {
        TokenKind::Ident
    }
}

fn word_kind_exec(b: &[u8], p: usize, e: usize) -> (r: TokenKind)
    requires
        p <= e <= b.len(),
    ensures
        r == word_kind(b@, p as int, e as int),
{
    let n = e - p;
    if n == 9 && b[p + 0] == 110u8 && b[p + 1] == 97u8 && b[p + 2] == 109u8 && b[p + 3] == 101u8 && b[p + 4] == 115u8 && b[p + 5] == 112u8 && b[p + 6] == 97u8 && b[p + 7] == 99u8 && b[p + 8] == 101u8 {
        TokenKind::Namespace
    } else if n == 4 && b[p + 0] == 101u8 && b[p + 1] == 110u8 && b[p + 2] == 117u8 && b[p + 3] == 109u8 {
        TokenKind::Enum
    } else {
        TokenKind::Ident
    }
}
/// The token starting at `p` (a non-trivia position before the end): its
/// kind and where it ends, or the error met there.
pub open spec fn token_at(b: Seq<u8>, p: int, header: bool) -> Result<(TokenKind, int), LexErr> {
    let c = b[p];
    if c == 34 {
        let q = quote_from(b, p + 1);
        if q >= 0 {
            Ok((TokenKind::Str, q + 1))
        } else {
            Err((LexErrorKind::UnterminatedString, p, b.len() as int))
        }
    } else if c == 35 {
        let e = word_end(b, p + 1);
        match directive_kind(b, p, e, header) {
            Some(k) => Ok((k, e)),
            None => Err((LexErrorKind::UnexpectedChar('#'), p, p + 1)),
        }
    } else if is_digit(c) || (c == 45 && p + 1 < b.len() && is_digit(b[p + 1])) {
        Ok((TokenKind::Number, number_end(b, p)))
    } else if c == 95 || is_alpha(c) {
        let e = word_end(b, p + 1);
        Ok((word_kind(b, p, e), e))
    } else if c == 60 {
        if p + 1 < b.len() && b[p + 1] == 60 {
            Ok((TokenKind::Shl, p + 2))
        } else {
            Ok((TokenKind::Lt, p + 1))
        }
    } else {
        match punct_kind(c) {
            Some(k) => Ok((k, p + 1)),
            None => Err((LexErrorKind::UnexpectedChar(first_char(b.skip(p))), p, p + lead_width(c))),
        }
    }
}

/// A token in the model: its kind and its byte range.
pub type TokSpan = (TokenKind, int, int);

/// The tokens of `b` from `p` on, ending with a single `Eof`, or the first
/// error.
pub open spec fn lex_spec(b: Seq<u8>, p: int, header: bool) -> Result<Seq<TokSpan>, LexErr>
    decreases b.len() - p,
{
    if !(0 <= p <= b.len()) {
        Ok(seq![(TokenKind::Eof, p, p)])
    } else {
        match trivia_end(b, p) {
            Err(e) => Err(e),
            Ok(q) => {
                proof {
                    lemma_trivia_end(b, p);
                }
                if q >= b.len() {
                    Ok(seq![(TokenKind::Eof, q, q)])
                } else {
                    match token_at(b, q, header) {
                        Err(e) => Err(e),
                        Ok((k, e)) => {
                            proof {
                                lemma_token_at(b, q, header);
                            }
                            match lex_spec(b, e, header) {
                                Ok(ts) => Ok(seq![(k, q, e)] + ts),
                                Err(x) => Err(x),
                            }
                        },
                    }
                }
            },
        }
    }
}

// ── bounds of the model ───────────────────────────────────────────────────────

pub proof fn lemma_ws_end(b: Seq<u8>, p: int)
    requires
        0 <= p <= b.len(),
    ensures
        p <= ws_end(b, p) <= b.len(),
    decreases b.len() - p,
{
    if ws_width(b, p) > 0 {
        lemma_ws_end(b, p + ws_width(b, p));
    }
}

pub proof fn lemma_line_end(b: Seq<u8>, p: int)
    requires
        0 <= p <= b.len(),
    ensures
        p <= line_end(b, p) <= b.len(),
        p < b.len() ==> p < line_end(b, p),
        line_end(b, p) == b.len() || (line_end(b, p) > 0 && b[line_end(b, p) - 1] == 10),
    decreases b.len() - p,
{
    if p < b.len() && b[p] != 10 {
        lemma_line_end(b, p + 1);
    }
}

pub proof fn lemma_close_from(b: Seq<u8>, p: int)
    ensures
        close_from(b, p) == -1 || (0 <= p <= close_from(b, p) && close_from(b, p) + 1 < b.len()
            && b[close_from(b, p) + 1] == 47),
    decreases b.len() - p,
{
    if 0 <= p && p + 1 < b.len() && !(b[p] == 42 && b[p + 1] == 47) {
        lemma_close_from(b, p + 1);
    }
}

pub proof fn lemma_quote_from(b: Seq<u8>, p: int)
    ensures
        quote_from(b, p) == -1 || (0 <= p <= quote_from(b, p) < b.len() && b[quote_from(b, p)]
            == 34),
        quote_from(b, p) >= 0 ==> forall|x: int| p <= x < quote_from(b, p) ==> b[x] != 34,
    decreases b.len() - p,
{
    if 0 <= p < b.len() && b[p] != 34 {
        lemma_quote_from(b, p + 1);
        assert forall|x: int| p <= x < quote_from(b, p) implies b[x] != 34 by {
            if x > p {
                assert(p + 1 <= x < quote_from(b, p + 1));
            }
        }
    }
}

pub proof fn lemma_digits_end(b: Seq<u8>, p: int)
    requires
        0 <= p <= b.len(),
    ensures
        p <= digits_end(b, p) <= b.len(),
        forall|i: int| p <= i < digits_end(b, p) ==> is_digit(#[trigger] b[i]),
    decreases b.len() - p,
{
    if p < b.len() && is_digit(b[p]) {
        lemma_digits_end(b, p + 1);
    }
}

pub proof fn lemma_word_end(b: Seq<u8>, p: int)
    requires
        0 <= p <= b.len(),
    ensures
        p <= word_end(b, p) <= b.len(),
        forall|i: int| p <= i < word_end(b, p) ==> is_word_byte(#[trigger] b[i]),
    decreases b.len() - p,
{
    if p < b.len() && is_word_byte(b[p]) {
        lemma_word_end(b, p + 1);
    }
}

pub proof fn lemma_trivia_end(b: Seq<u8>, p: int)
    requires
        0 <= p <= b.len(),
    ensures
        trivia_end(b, p) matches Ok(q) ==> p <= q <= b.len(),
    decreases b.len() - p,
{
    let q = ws_end(b, p);
    lemma_ws_end(b, p);
    if starts2(b, q, 47, 47) {
        lemma_line_end(b, q);
        lemma_trivia_end(b, line_end(b, q));
    } else if starts2(b, q, 47, 42) {
        lemma_close_from(b, q + 2);
        lemma_line_end(b, q);
        let c = close_from(b, q + 2);
        if c >= 0 {
            lemma_trivia_end(b, c + 2);
        } else if decorative(b, q) {
            lemma_trivia_end(b, line_end(b, q));
        }
    } else if 0 <= q < b.len() && (b[q] == 42 || b[q] == 47) && decorative(b, q) {
        lemma_line_end(b, q);
        lemma_trivia_end(b, line_end(b, q));
    }
}

pub proof fn lemma_token_at(b: Seq<u8>, p: int, header: bool)
    requires
        0 <= p < b.len(),
    ensures
        token_at(b, p, header) matches Ok((k, e)) ==> p < e <= b.len() && b[e - 1] < 0x80,
{
    let c = b[p];
    if c == 34 {
        lemma_quote_from(b, p + 1);
    } else if c == 35 {
        lemma_word_end(b, p + 1);
    } else if is_digit(c) || (c == 45 && p + 1 < b.len() && is_digit(b[p + 1])) {
        lemma_number_end(b, p);
    } else if c == 95 || is_alpha(c) {
        lemma_word_end(b, p + 1);
    }
}

pub proof fn lemma_number_end(b: Seq<u8>, p: int)
    requires
        0 <= p < b.len(),
        is_digit(b[p]) || (b[p] == 45 && p + 1 < b.len() && is_digit(b[p + 1])),
    ensures
        p < number_end(b, p) <= b.len(),
        b[number_end(b, p) - 1] < 0x80,
{
    let a = if b[p] == 45 {
        p + 1
    } else {
        p
    };
    lemma_digits_end(b, a);
    lemma_digits_end(b, a + 1);
    assert(is_digit(b[a]));
    let d = digits_end(b, a);
    assert(d > a);
    if d < b.len() && b[d] == 46 {
        lemma_digits_end(b, d + 1);
    }
}

// ── character boundaries ──────────────────────────────────────────────────────

/// At a character boundary of valid UTF-8, the next boundary lies one
/// encoded character further, as wide as its leading byte says.
pub proof fn lemma_next_boundary(b: Seq<u8>, i: int)
    requires
        valid_utf8(b),
        0 <= i < b.len(),
        is_char_boundary(b, i),
    ensures
        !is_continuation_byte(b[i]),
        i + lead_width(b[i]) <= b.len(),
        is_char_boundary(b, i + lead_width(b[i])),
        length_of_first_scalar(b.skip(i)) == lead_width(b[i]),
    decreases b.len(),
{
    let l = length_of_first_scalar(b);
    let pop = pop_first_scalar(b);
    assert(pop.len() < b.len());
    if i == 0 {
        assert(b.skip(0) =~= b);
        assert(lead_width(b[0]) == l);
        assert(is_char_boundary(pop, 0));
    } else {
        assert(is_char_boundary(pop, i - l));
        assert(0 <= i - l < pop.len());
        assert(pop[i - l] == b[i]);
        lemma_next_boundary(pop, i - l);
        assert(pop.skip(i - l) =~= b.skip(i));
    }
}

/// The position after an ASCII byte of valid UTF-8 is a character boundary.
pub proof fn lemma_boundary_after_ascii(b: Seq<u8>, i: int)
    requires
        valid_utf8(b),
        0 <= i < b.len(),
        b[i] < 0x80,
    ensures
        is_char_boundary(b, i + 1),
{
    vstd::utf8::is_char_boundary_iff_not_is_continuation_byte(b, i);
    lemma_next_boundary(b, i);
}

proof fn lemma_ws_end_boundary(b: Seq<u8>, p: int)
    requires
        valid_utf8(b),
        0 <= p <= b.len(),
        is_char_boundary(b, p),
    ensures
        is_char_boundary(b, ws_end(b, p)),
    decreases b.len() - p,
{
    let w = ws_width(b, p);
    if w > 0 {
        lemma_next_boundary(b, p);
        assert(w == lead_width(b[p]));
        lemma_ws_end_boundary(b, p + w);
    }
}

proof fn lemma_line_end_boundary(b: Seq<u8>, p: int)
    requires
        valid_utf8(b),
        0 <= p <= b.len(),
        is_char_boundary(b, p),
    ensures
        is_char_boundary(b, line_end(b, p)),
{
    lemma_line_end(b, p);
    let e = line_end(b, p);
    if e == b.len() {
        vstd::utf8::is_char_boundary_start_end_of_seq(b);
    } else {
        lemma_boundary_after_ascii(b, e - 1);
    }
}

/// Trivia ends on a character boundary.
proof fn lemma_trivia_end_boundary(b: Seq<u8>, p: int)
    requires
        valid_utf8(b),
        0 <= p <= b.len(),
        is_char_boundary(b, p),
    ensures
        trivia_end(b, p) matches Ok(q) ==> is_char_boundary(b, q),
    decreases b.len() - p,
{
    let q = ws_end(b, p);
    lemma_ws_end(b, p);
    lemma_ws_end_boundary(b, p);
    if starts2(b, q, 47, 47) {
        lemma_line_end(b, q);
        lemma_line_end_boundary(b, q);
        lemma_trivia_end_boundary(b, line_end(b, q));
    } else if starts2(b, q, 47, 42) {
        lemma_close_from(b, q + 2);
        lemma_line_end(b, q);
        let c = close_from(b, q + 2);
        if c >= 0 {
            lemma_boundary_after_ascii(b, c + 1);
            lemma_trivia_end_boundary(b, c + 2);
        } else if decorative(b, q) {
            lemma_line_end_boundary(b, q);
            lemma_trivia_end_boundary(b, line_end(b, q));
        }
    } else if 0 <= q < b.len() && (b[q] == 42 || b[q] == 47) && decorative(b, q) {
        lemma_line_end(b, q);
        lemma_line_end_boundary(b, q);
        lemma_trivia_end_boundary(b, line_end(b, q));
    }
}

// ── scanning ──────────────────────────────────────────────────────────────────

pub(crate) fn ws_width_exec(b: &[u8], p: usize) -> (r: usize)
    requires
        p <= b.len(),
    ensures
        r == ws_width(b@, p as int),
{
    let n = b.len();
    if p >= n {
        return 0;
    }
    let c = b[p];
    if (9 <= c && c <= 13) || c == 32 {
        1
    } else if n - p > 1 && c == 0xc2 && (b[p + 1] == 0x85 || b[p + 1] == 0xa0) {
        2
    } else if n - p > 2 && ((c == 0xe1 && b[p + 1] == 0x9a && b[p + 2] == 0x80) || (c == 0xe2
        && b[p + 1] == 0x80 && ((0x80 <= b[p + 2] && b[p + 2] <= 0x8a) || b[p + 2] == 0xa8 || b[p
        + 2] == 0xa9 || b[p + 2] == 0xaf)) || (c == 0xe2 && b[p + 1] == 0x81 && b[p + 2] == 0x9f)
        || (c == 0xe3 && b[p + 1] == 0x80 && b[p + 2] == 0x80)) {
        3
    } else {
        0
    }
}

fn ws_end_exec(b: &[u8], p: usize) -> (r: usize)
    requires
        p <= b.len(),
    ensures
        r == ws_end(b@, p as int),
{
    let mut i = p;
    while i < b.len()
        invariant
            p <= i <= b.len(),
            ws_end(b@, p as int) == ws_end(b@, i as int),
        decreases b.len() - i,
    {
        let w = ws_width_exec(b, i);
        if w == 0 {
            return i;
        }
        i = i + w;
    }
    i
}

fn line_end_exec(b: &[u8], p: usize) -> (r: usize)
    requires
        p <= b.len(),
    ensures
        r == line_end(b@, p as int),
{
    let mut i = p;
    while i < b.len()
        invariant
            p <= i <= b.len(),
            line_end(b@, p as int) == line_end(b@, i as int),
        decreases b.len() - i,
    {
        if b[i] == 10 {
            return i + 1;
        }
        i = i + 1;
    }
    i
}

fn decorative_exec(b: &[u8], p: usize) -> (r: bool)
    requires
        p <= b.len(),
    ensures
        r == decorative(b@, p as int),
{
    let mut i = p;
    while i < b.len()
        invariant
            p <= i <= b.len(),
            decorative(b@, p as int) == decorative(b@, i as int),
        decreases b.len() - i,
    {
        let c = b[i];
        if c == 10 {
            return true;
        }
        if !(c == 42 || c == 47 || c == 32 || c == 9 || c == 13) {
            return false;
        }
        i = i + 1;
    }
    true
}

fn close_from_exec(b: &[u8], p: usize) -> (r: Option<usize>)
    requires
        p <= b.len(),
    ensures
        r is None <==> close_from(b@, p as int) == -1,
        r matches Some(c) ==> c == close_from(b@, p as int),
{
    let mut i = p;
    while b.len() - i > 1
        invariant
            p <= i <= b.len(),
            close_from(b@, p as int) == close_from(b@, i as int),
        decreases b.len() - i,
    {
        if b[i] == 42 && b[i + 1] == 47 {
            return Some(i);
        }
        i = i + 1;
    }
    None
}

fn quote_from_exec(b: &[u8], p: usize) -> (r: Option<usize>)
    requires
        p <= b.len(),
    ensures
        r is None <==> quote_from(b@, p as int) == -1,
        r matches Some(c) ==> c == quote_from(b@, p as int),
{
    let mut i = p;
    while i < b.len()
        invariant
            p <= i <= b.len(),
            quote_from(b@, p as int) == quote_from(b@, i as int),
        decreases b.len() - i,
    {
        if b[i] == 34 {
            return Some(i);
        }
        i = i + 1;
    }
    None
}

fn digits_end_exec(b: &[u8], p: usize) -> (r: usize)
    requires
        p <= b.len(),
    ensures
        r == digits_end(b@, p as int),
{
    let mut i = p;
    while i < b.len() && 48 <= b[i] && b[i] <= 57
        invariant
            p <= i <= b.len(),
            digits_end(b@, p as int) == digits_end(b@, i as int),
        decreases b.len() - i,
    {
        i = i + 1;
    }
    i
}

fn word_end_exec(b: &[u8], p: usize) -> (r: usize)
    requires
        p <= b.len(),
    ensures
        r == word_end(b@, p as int),
{
    let mut i = p;
    while i < b.len() && ((48 <= b[i] && b[i] <= 57) || (65 <= b[i] && b[i] <= 90) || (97 <= b[i]
        && b[i] <= 122) || b[i] == 95)
        invariant
            p <= i <= b.len(),
            word_end(b@, p as int) == word_end(b@, i as int),
        decreases b.len() - i,
    {
        i = i + 1;
    }
    i
}

fn number_end_exec(b: &[u8], p: usize) -> (r: usize)
    requires
        p < b.len(),
    ensures
        r == number_end(b@, p as int),
{
    let a = if b[p] == 45 {
        p + 1
    } else {
        p
    };
    let d = digits_end_exec(b, a);
    proof {
        lemma_digits_end(b@, a as int);
    }
    let f = if d < b.len() && b[d] == 46 {
        digits_end_exec(b, d + 1)
    } else {
        d
    };
    proof {
        if d < b.len() && b@[d as int] == 46 {
            lemma_digits_end(b@, d + 1);
        }
    }
    if f < b.len() && b[f] == 102 {
        f + 1
    } else {
        f
    }
}

fn punct_kind_exec(c: u8) -> (r: Option<TokenKind>)
    ensures
        r == punct_kind(c),
{
    if c == 46 {
        Some(TokenKind::Dot)
    } else if c == 91 {
        Some(TokenKind::LBracket)
    } else if c == 93 {
        Some(TokenKind::RBracket)
    } else if c == 40 {
        Some(TokenKind::LParen)
    } else if c == 41 {
        Some(TokenKind::RParen)
    } else if c == 123 {
        Some(TokenKind::LBrace)
    } else if c == 125 {
        Some(TokenKind::RBrace)
    } else if c == 62 {
        Some(TokenKind::Gt)
    } else if c == 92 {
        Some(TokenKind::Backslash)
    } else if c == 124 {
        Some(TokenKind::Pipe)
    } else if c == 43 {
        Some(TokenKind::Plus)
    } else if c == 61 {
        Some(TokenKind::Eq)
    } else if c == 44 {
        Some(TokenKind::Comma)
    } else if c == 59 {
        Some(TokenKind::Semi)
    } else {
        None
    }
}

/// A lex error in the model's terms.
pub open spec fn lex_error_view(e: LexError) -> LexErr {
    (e.kind, e.span.start as int, e.span.end as int)
}

/// A token in the model's terms.
pub open spec fn token_view(t: Token) -> TokSpan {
    (t.kind, t.span.start as int, t.span.end as int)
}

fn trivia_end_exec(b: &[u8], p: usize) -> (r: Result<usize, LexError>)
    requires
        p <= b.len(),
    ensures
        match trivia_end(b@, p as int) {
            Ok(q) => r == Ok::<usize, LexError>(q as usize),
            Err(e) => r matches Err(x) && lex_error_view(x) == e,
        },
{
    let n = b.len();
    let mut i = p;
    loop
        invariant
            p <= i <= n,
            n == b.len(),
            trivia_end(b@, p as int) == trivia_end(b@, i as int),
        decreases n - i,
    {
        let q = ws_end_exec(b, i);
        proof {
            lemma_ws_end(b@, i as int);
        }
        if n - q > 1 && b[q] == 47 && b[q + 1] == 47 {
            let e = line_end_exec(b, q);
            proof {
                lemma_line_end(b@, q as int);
            }
            i = e;
        } else if n - q > 1 && b[q] == 47 && b[q + 1] == 42 {
            proof {
                lemma_close_from(b@, q + 2);
                lemma_line_end(b@, q as int);
            }
            match close_from_exec(b, q + 2) {
                Some(c) => {
                    i = c + 2;
                },
                None => {
                    if decorative_exec(b, q) {
                        i = line_end_exec(b, q);
                    } else {
                        return Err(
                            LexError {
                                kind: LexErrorKind::UnterminatedBlockComment,
                                span: Span { start: q, end: n },
                            },
                        );
                    }
                },
            }
        } else if q < n && (b[q] == 42 || b[q] == 47) && decorative_exec(b, q) {
            proof {
                lemma_line_end(b@, q as int);
            }
            i = line_end_exec(b, q);
        } else {
            return Ok(q);
        }
    }
}

/// The slice `input[start..end]`.
pub fn slice_at<'a>(input: &'a str, start: usize, end: usize) -> (r: &'a str)
    requires
        start <= end <= input.spec_bytes().len(),
        is_char_boundary(input.spec_bytes(), start as int),
        is_char_boundary(input.spec_bytes(), end as int),
    ensures
        r.spec_bytes() == input.spec_bytes().subrange(start as int, end as int),
{
    let ghost b = input.spec_bytes();
    proof {
        vstd::utf8::encode_utf8_valid_utf8(input@);
    }
    let (head, _) = input.split_at(end);
    let ghost h = head.spec_bytes();
    proof {
        assert(h =~= b.subrange(0, end as int));
        vstd::utf8::valid_utf8_split(b, end as int);
        if start < end {
            vstd::utf8::is_char_boundary_iff_not_is_continuation_byte(b, start as int);
            vstd::utf8::is_char_boundary_iff_not_is_continuation_byte(h, start as int);
        } else {
            vstd::utf8::is_char_boundary_start_end_of_seq(h);
        }
    }
    let (_, r) = head.split_at(start);
    assert(r.spec_bytes() =~= b.subrange(start as int, end as int));
    r
}

/// The character that starts at byte `p` of `input`, and its width.
fn char_at(input: &str, p: usize) -> (r: (char, usize))
    requires
        p < input.spec_bytes().len(),
        is_char_boundary(input.spec_bytes(), p as int),
    ensures
        r.0 == first_char(input.spec_bytes().skip(p as int)),
        r.1 == lead_width(input.spec_bytes()[p as int]),
        p + r.1 <= input.spec_bytes().len(),
{
    broadcast use vstd::string::next_postcondition, vstd::string::axiom_spec_iter;

    let ghost b = input.spec_bytes();
    proof {
        vstd::utf8::encode_utf8_valid_utf8(input@);
        lemma_next_boundary(b, p as int);
    }
    let (_, rest) = input.split_at(p);
    proof {
        assert(rest.spec_bytes() =~= b.skip(p as int));
        vstd::utf8::valid_utf8_split(b, p as int);
        vstd::utf8::encode_utf8_decode_utf8(rest@);
        assert(rest@ == vstd::utf8::decode_utf8(b.skip(p as int)));
        assert(b.skip(p as int).len() > 0);
    }
    let mut it = rest.chars();
    let c = it.next();
    let bytes = input.as_bytes();
    let lead = bytes[p];
    let w: usize = if lead < 0x80 {
        1
    } else if lead < 0xe0 {
        2
    } else if lead < 0xf0 {
        3
    } else {
        4
    };
    match c {
        Some(c) => (c, w),
        None => (' ', w),
    }
}

fn token_at_exec(input: &str, b: &[u8], p: usize, header: bool) -> (r: Result<(TokenKind, usize), LexError>)
    requires
        b@ == input.spec_bytes(),
        p < b.len(),
        is_char_boundary(b@, p as int),
    ensures
        match token_at(b@, p as int, header) {
            Ok((k, e)) => r == Ok::<(TokenKind, usize), LexError>((k, e as usize)),
            Err(e) => r matches Err(x) && lex_error_view(x) == e,
        },
{
    let n = b.len();
    let c = b[p];
    if c == 34 {
        proof {
            lemma_quote_from(b@, p + 1);
        }
        match quote_from_exec(b, p + 1) {
            Some(q) => Ok((TokenKind::Str, q + 1)),
            None => Err(LexError { kind: LexErrorKind::UnterminatedString, span: Span { start: p, end: n } }),
        }
    } else if c == 35 {
        let e = word_end_exec(b, p + 1);
        proof {
            lemma_word_end(b@, p + 1);
        }
        match directive_kind_exec(b, p, e, header) {
            Some(k) => Ok((k, e)),
            None => Err(
                LexError { kind: LexErrorKind::UnexpectedChar('#'), span: Span { start: p, end: p + 1 } },
            ),
        }
    } else if (48 <= c && c <= 57) || (c == 45 && p + 1 < n && 48 <= b[p + 1] && b[p + 1] <= 57) {
        Ok((TokenKind::Number, number_end_exec(b, p)))
    } else if c == 95 || (65 <= c && c <= 90) || (97 <= c && c <= 122) {
        let e = word_end_exec(b, p + 1);
        proof {
            lemma_word_end(b@, p + 1);
        }
        Ok((word_kind_exec(b, p, e), e))
    } else if c == 60 {
        if p + 1 < n && b[p + 1] == 60 {
            Ok((TokenKind::Shl, p + 2))
        } else {
            Ok((TokenKind::Lt, p + 1))
        }
    } else {
        match punct_kind_exec(c) {
            Some(k) => Ok((k, p + 1)),
            None => {
                let (ch, w) = char_at(input, p);
                Err(LexError { kind: LexErrorKind::UnexpectedChar(ch), span: Span { start: p, end: p + w } })
            },
        }
    }
}

// ── the lexer ─────────────────────────────────────────────────────────────────

/// The tokenizer. Borrows the source for the token slices' lifetime.
pub struct Lexer<'a> {
    input: &'a str,
    pos: usize,
    header: bool,
}

impl<'a> Lexer<'a> {
    #[verifier::type_invariant]
    spec fn inv(&self) -> bool {
        &&& self.pos <= self.input.spec_bytes().len()
        &&& is_char_boundary(self.input.spec_bytes(), self.pos as int)
    }

    /// The text being tokenized.
    pub closed spec fn input_spec(&self) -> &'a str {
        self.input
    }

    /// The byte offset the next token is read from.
    pub closed spec fn pos_spec(&self) -> int {
        self.pos as int
    }

    /// Whether the header directives `#ifndef`, `#else` and `#pragma` are known.
    pub closed spec fn header_spec(&self) -> bool {
        self.header
    }

    /// A lexer for the def grammar, at the start of `input`.
    pub fn new(input: &'a str) -> (r: Self)
        ensures
            r.input_spec() == input,
            r.pos_spec() == 0,
            !r.header_spec(),
    {
        proof {
            vstd::utf8::encode_utf8_valid_utf8(input@);
            vstd::utf8::is_char_boundary_start_end_of_seq(input.spec_bytes());
        }
        Lexer { input, pos: 0, header: false }
    }

    /// A lexer for the header grammar, at the start of `input`.
    pub fn new_header(input: &'a str) -> (r: Self)
        ensures
            r.input_spec() == input,
            r.pos_spec() == 0,
            r.header_spec(),
    {
        proof {
            vstd::utf8::encode_utf8_valid_utf8(input@);
            vstd::utf8::is_char_boundary_start_end_of_seq(input.spec_bytes());
        }
        Lexer { input, pos: 0, header: true }
    }

    /// Tokenizes the rest of the input, ending with a single
    /// [`TokenKind::Eof`]. The first lex error aborts and is returned.
    pub fn tokenize(&mut self) -> (r: Result<Vec<Token<'a>>, LexError>)
        ensures
            final(self).input_spec() == old(self).input_spec(),
            final(self).header_spec() == old(self).header_spec(),
            tokens_match(
                old(self).input_spec().spec_bytes(),
                r,
                lex_spec(old(self).input_spec().spec_bytes(), old(self).pos_spec(), old(self).header_spec()),
            ),
            r is Ok ==> final(self).pos_spec() == old(self).input_spec().spec_bytes().len(),
    {
        proof {
            use_type_invariant(&*self);
        }
        let (r, end) = tokenize_from(self.input, self.pos, self.header);
        self.pos = end;
        r
    }
}

/// Tokenizes `input` from byte `p0`, returning the outcome and the position
/// it stopped at.
fn tokenize_from<'a>(input: &'a str, p0: usize, header: bool) -> (r: (Result<Vec<Token<'a>>, LexError>, usize))
    requires
        p0 <= input.spec_bytes().len(),
        is_char_boundary(input.spec_bytes(), p0 as int),
    ensures
        tokens_match(input.spec_bytes(), r.0, lex_spec(input.spec_bytes(), p0 as int, header)),
        r.1 <= input.spec_bytes().len(),
        is_char_boundary(input.spec_bytes(), r.1 as int),
        r.0 is Ok ==> r.1 == input.spec_bytes().len(),
{
    let b = input.as_bytes();
    let ghost bs = b@;
    proof {
        vstd::utf8::encode_utf8_valid_utf8(input@);
    }
    let mut tokens: Vec<Token<'a>> = Vec::new();
    let mut pos = p0;
    loop
        invariant
            b@ == bs,
            bs == input.spec_bytes(),
            valid_utf8(bs),
            pos <= bs.len(),
            is_char_boundary(bs, pos as int),
            tokens_prefix(bs, tokens@, lex_spec(bs, p0 as int, header), lex_spec(bs, pos as int, header)),
        decreases bs.len() - pos,
    {
        proof {
            lemma_trivia_end(bs, pos as int);
            lemma_trivia_end_boundary(bs, pos as int);
        }
        let q = match trivia_end_exec(b, pos) {
            Ok(q) => q,
            Err(x) => {
                return (Err(x), pos);
            },
        };
        if q >= b.len() {
            let t = Token { kind: TokenKind::Eof, span: Span { start: q, end: q }, source: slice_at(input, q, q) };
            tokens.push(t);
            return (Ok(tokens), q);
        }
        proof {
            lemma_token_at(bs, q as int, header);
        }
        let (k, e) = match token_at_exec(input, b, q, header) {
            Ok(ke) => ke,
            Err(x) => {
                return (Err(x), q);
            },
        };
        proof {
            lemma_boundary_after_ascii(bs, e - 1);
            vstd::utf8::is_char_boundary_iff_not_is_continuation_byte(bs, q as int);
        }
        let t = Token { kind: k, span: Span { start: q, end: e }, source: slice_at(input, q, e) };
        let ghost before = tokens@;
        tokens.push(t);
        proof {
            let tv = token_view(t);
            assert(tv == (k, q as int, e as int));
            let f = |x: Token| token_view(x);
            assert(tokens@.map_values(f) =~= before.map_values(f).push(tv));
            match lex_spec(bs, e as int, header) {
                Ok(ts) => {
                    assert(before.map_values(f) + (seq![tv] + ts) =~= tokens@.map_values(f) + ts);
                },
                Err(_) => {},
            }
            assert forall|i: int| 0 <= i < tokens@.len() implies (#[trigger] tokens@[i]).source.spec_bytes()
                == bs.subrange(tokens@[i].span.start as int, tokens@[i].span.end as int) by {
                if i < before.len() {
                    assert(tokens@[i] == before[i]);
                }
            }
        }
        pos = e;
    }
}

/// Whether `r` is the outcome `m` of the model: the same tokens, each with the
/// source bytes of its span, or the same error.
pub open spec fn tokens_match(
    b: Seq<u8>,
    r: Result<Vec<Token>, LexError>,
    m: Result<Seq<TokSpan>, LexErr>,
) -> bool {
    match m {
        Ok(ts) => r matches Ok(v) && v@.len() == ts.len() && forall|i: int|
            0 <= i < ts.len() ==> token_view(#[trigger] v@[i]) == ts[i] && v@[i].source.spec_bytes()
                == b.subrange(ts[i].1, ts[i].2),
        Err(e) => r matches Err(x) && lex_error_view(x) == e,
    }
}

/// The loop's view: `done` followed by the outcome from here is the outcome
/// from the start.
pub open spec fn tokens_prefix(
    b: Seq<u8>,
    done: Seq<Token>,
    whole: Result<Seq<TokSpan>, LexErr>,
    from_here: Result<Seq<TokSpan>, LexErr>,
) -> bool {
    &&& forall|i: int|
        0 <= i < done.len() ==> (#[trigger] done[i]).source.spec_bytes() == b.subrange(
            done[i].span.start as int,
            done[i].span.end as int,
        )
    &&& whole == match from_here {
        Ok(ts) => Ok(done.map_values(|t: Token| token_view(t)) + ts),
        Err(e) => Err(e),
    }
}

/// Tokenizes `input` with the def-grammar directives into a `Vec` ending
/// with a single `Eof`, or the first [`LexError`].
pub fn lex(input: &str) -> (r: Result<Vec<Token<'_>>, LexError>)
    ensures
        tokens_match(input.spec_bytes(), r, lex_spec(input.spec_bytes(), 0, false)),
{
    let mut l = Lexer::new(input);
    l.tokenize()
}

/// Tokenizes `input` with the header-grammar directives (also `#ifndef`,
/// `#else`, `#pragma`).
pub fn lex_header(input: &str) -> (r: Result<Vec<Token<'_>>, LexError>)
    ensures
        tokens_match(input.spec_bytes(), r, lex_spec(input.spec_bytes(), 0, true)),
{
    let mut l = Lexer::new_header(input);
    l.tokenize()
}

// ── laws ──────────────────────────────────────────────────────────────────────

/// A successful lex ends with exactly one `Eof`, at the end of the input;
/// every other token is non-empty, and the tokens come in source order
/// without overlapping.
pub proof fn lemma_lex_shape(b: Seq<u8>, p: int, header: bool)
    requires
        0 <= p <= b.len(),
    ensures
        lex_spec(b, p, header) matches Ok(ts) ==> {
            &&& ts.len() >= 1
            &&& ts.last() == (TokenKind::Eof, b.len() as int, b.len() as int)
            &&& forall|i: int| 0 <= i < ts.len() - 1 ==> (#[trigger] ts[i]).0 != TokenKind::Eof
            &&& forall|i: int|
                0 <= i < ts.len() - 1 ==> p <= (#[trigger] ts[i]).1 < ts[i].2 <= ts[i + 1].1
        },
    decreases b.len() - p,
{
    lemma_trivia_end(b, p);
    if let Ok(q) = trivia_end(b, p) {
        if q < b.len() {
            lemma_token_at(b, q, header);
            if let Ok((k, e)) = token_at(b, q, header) {
                lemma_lex_shape(b, e, header);
                assert(k != TokenKind::Eof) by {
                    let c = b[q];
                    if c == 35 {
                    }
                }
                if let Ok(ts) = lex_spec(b, e, header) {
                    let all = seq![(k, q, e)] + ts;
                    assert forall|i: int| 0 <= i < all.len() - 1 implies p <= (#[trigger] all[i]).1
                        < all[i].2 <= all[i + 1].1 by {
                        if i > 0 {
                            assert(all[i] == ts[i - 1]);
                            assert(all[i + 1] == ts[i]);
                        } else {
                            assert(all[1] == ts[0]);
                        }
                    }
                    assert forall|i: int| 0 <= i < all.len() - 1 implies (#[trigger] all[i]).0
                        != TokenKind::Eof by {
                        if i > 0 {
                            assert(all[i] == ts[i - 1]);
                        }
                    }
                    assert(all.last() == ts.last());
                }
            }
        }
    }
}

/// Whether the token `t` of `b` has the shape of its kind: a number is an
/// optional `-`, digits, an optional `.` and digits and an optional `f`; a
/// word (an identifier or a keyword) starts with a letter or `_` and runs
/// over `[A-Za-z0-9_]`, its kind being the keyword it spells, if any; a
/// shift is `<<`, and a token `<<` is a shift; a string is its two quotes
/// with no quote between them.
pub open spec fn token_shaped(b: Seq<u8>, t: TokSpan) -> bool {
    let (k, s, e) = t;
    &&& k == TokenKind::Number ==> (is_digit(b[s]) || (b[s] == 45 && s + 1 < b.len() && is_digit(b[s + 1])))
        && e == number_end(b, s)
    &&& (k == TokenKind::Ident || k == TokenKind::Namespace || k == TokenKind::Enum) ==> (b[s] == 95 || is_alpha(
        b[s],
    )) && e == word_end(b, s + 1) && k == word_kind(b, s, e)
    &&& k == TokenKind::Shl ==> e == s + 2 && b[s] == 60 && b[s + 1] == 60
    &&& (e == s + 2 && b[s] == 60 && b[s + 1] == 60) ==> k == TokenKind::Shl
    &&& k == TokenKind::Str ==> s + 2 <= e && b[s] == 34 && b[e - 1] == 34 && forall|x: int|
        s < x < e - 1 ==> b[x] != 34
}

/// Between the tokens of a successful lex lies only trivia: the input up
/// to the first token, and from each token to the next, is a maximal run
/// of whitespace, comments and decorative lines ([`trivia_end`]); and every
/// token has the shape of its kind ([`token_shaped`]).
pub proof fn lemma_lex_trivia_and_shapes(b: Seq<u8>, p: int, header: bool)
    requires
        0 <= p <= b.len(),
    ensures
        lex_spec(b, p, header) matches Ok(ts) ==> {
            &&& ts.len() >= 1
            &&& trivia_end(b, p) == Ok::<int, LexErr>(ts[0].1)
            &&& forall|i: int|
                0 <= i < ts.len() - 1 ==> trivia_end(b, (#[trigger] ts[i]).2) == Ok::<int, LexErr>(ts[i + 1].1)
            &&& forall|i: int| 0 <= i < ts.len() - 1 ==> token_shaped(b, #[trigger] ts[i])
        },
    decreases b.len() - p,
{
    lemma_trivia_end(b, p);
    if let Ok(q) = trivia_end(b, p) {
        if q < b.len() {
            lemma_token_at(b, q, header);
            if let Ok((k, e)) = token_at(b, q, header) {
                lemma_lex_trivia_and_shapes(b, e, header);
                if b[q] == 34 {
                    lemma_quote_from(b, q + 1);
                }
                assert(token_shaped(b, (k, q, e)));
                if let Ok(ts) = lex_spec(b, e, header) {
                    let all = seq![(k, q, e)] + ts;
                    assert forall|i: int| 0 <= i < all.len() - 1 implies trivia_end(b, (#[trigger] all[i]).2)
                        == Ok::<int, LexErr>(all[i + 1].1) by {
                        if i > 0 {
                            assert(all[i] == ts[i - 1]);
                            assert(all[i + 1] == ts[i]);
                        } else {
                            assert(all[1] == ts[0]);
                        }
                    }
                    assert forall|i: int| 0 <= i < all.len() - 1 implies token_shaped(b, #[trigger] all[i]) by {
                        if i > 0 {
                            assert(all[i] == ts[i - 1]);
                        }
                    }
                }
            }
        }
    }
}

/// Every string token of a successful lex spans its two quotes.
pub proof fn lemma_lex_strings(b: Seq<u8>, p: int, header: bool)
    requires
        0 <= p <= b.len(),
    ensures
        lex_spec(b, p, header) matches Ok(ts) ==> forall|i: int|
            0 <= i < ts.len() && (#[trigger] ts[i]).0 == TokenKind::Str ==> {
                &&& 0 <= ts[i].1
                &&& ts[i].1 + 2 <= ts[i].2 <= b.len()
                &&& b[ts[i].1] == 34
                &&& b[ts[i].2 - 1] == 34
            },
    decreases b.len() - p,
{
    lemma_trivia_end(b, p);
    if let Ok(q) = trivia_end(b, p) {
        if q < b.len() {
            lemma_token_at(b, q, header);
            if let Ok((k, e)) = token_at(b, q, header) {
                lemma_lex_strings(b, e, header);
                if k == TokenKind::Str {
                    assert(b[q] == 34) by {
                        let c = b[q];
                        if c == 35 {
                        }
                    }
                    lemma_quote_from(b, q + 1);
                }
                if let Ok(ts) = lex_spec(b, e, header) {
                    let all = seq![(k, q, e)] + ts;
                    assert forall|i: int| 0 <= i < all.len() && (#[trigger] all[i]).0 == TokenKind::Str implies {
                        &&& 0 <= all[i].1
                        &&& all[i].1 + 2 <= all[i].2 <= b.len()
                        &&& b[all[i].1] == 34
                        &&& b[all[i].2 - 1] == 34
                    } by {
                        if i > 0 {
                            assert(all[i] == ts[i - 1]);
                        }
                    }
                }
            }
        }
    }
}

} // verus!
