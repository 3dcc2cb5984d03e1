//! The header grammar: `enum` declarations, `#define` constants, `namespace`
//! blocks and `#ifdef`/`#ifndef` sections, with an optional `#pragma once` /
//! include-guard prologue and whatever follows the closing `#endif`.
//!
//! The parser reads the tokens of [`lex_header`]. Its contracts speak of a
//! model: [`parse_file_m`] over the tokens' kinds, offsets and source bytes,
//! with names as their UTF-8 bytes.

use vstd::prelude::*;
use vstd::string::StringSliceAdditionalSpecFns;
use vstd::utf8::encode_utf8;

use super::base::ParseError;
use super::lexer::{lex_header, lex_spec, LexErrorKind, Token, TokenKind, TokSpan};
use super::number::{i64_of, parse_i64};

verus! {

// ── data types ────────────────────────────────────────────────────────────────

#[derive(Debug)]
pub struct Header {
    pub items: Vec<HeaderItem>,
}

#[derive(Debug)]
pub enum HeaderItem {
    Enum(EnumDecl),
    Define(Define),
    Namespace(Namespace),
    IfDef(IfDef),
}

#[derive(Debug)]
pub struct EnumDecl {
    pub name: Option<String>,
    pub variants: Vec<EnumVariant>,
}

#[derive(Debug)]
pub struct EnumVariant {
    pub name: String,
    pub value: Option<EnumExpr>,
}

#[derive(Debug)]
pub enum EnumExpr {
    Int(i64),
    Ident(String),
    Shift(Vec<EnumExpr>),
    BitOr(Vec<EnumExpr>),
}

#[derive(Debug, Clone)]
pub struct Define {
    pub name: String,
    pub value: i64,
}

#[derive(Debug)]
pub struct Namespace {
    pub name: String,
    pub items: Vec<HeaderItem>,
}

#[derive(Debug)]
pub struct IfDef {
    pub condition: String,
    pub if_branch: Vec<HeaderItem>,
    pub else_branch: Option<Vec<HeaderItem>>,
    pub inverted: bool,
}

/// What went wrong in the text grammars, without the location.
#[derive(Debug, Clone)]
pub enum TextParseErrorKind {
    UnexpectedToken { expected: String },
    InvalidNumber,
    UnterminatedEnum,
    UnterminatedNamespace,
    UnterminatedIfDef,
    UnknownItem,
    UnterminatedString,
    UnterminatedBlockComment,
    UnexpectedChar(char),
}

pub type HeaderParseError = ParseError<TextParseErrorKind>;

// ── the model ─────────────────────────────────────────────────────────────────

/// An enum value expression, names as UTF-8 bytes.
pub enum ExprM {
    Int(int),
    Ident(Seq<u8>),
    Shift(Seq<ExprM>),
    BitOr(Seq<ExprM>),
}

pub struct VariantM {
    pub name: Seq<u8>,
    pub value: Option<ExprM>,
}

/// A header item, names as UTF-8 bytes.
pub enum ItemM {
    Enum(Option<Seq<u8>>, Seq<VariantM>),
    Define(Seq<u8>, int),
    Namespace(Seq<u8>, Seq<ItemM>),
    IfDef(Seq<u8>, Seq<ItemM>, Option<Seq<ItemM>>, bool),
}

/// A parse error kind, the expected text as characters.
pub enum TextErrM {
    UnexpectedToken(Seq<char>),
    InvalidNumber,
    UnterminatedEnum,
    UnterminatedNamespace,
    UnterminatedIfDef,
    UnknownItem,
    UnterminatedString,
    UnterminatedBlockComment,
    UnexpectedChar(char),
}

/// A parse error in the model: its offset and kind.
pub type PErr = (int, TextErrM);

/// A token in the model: its kind, its start offset and its source bytes.
pub type TokM = (TokenKind, int, Seq<u8>);

pub open spec fn str_m(s: String) -> Seq<u8> {
    encode_utf8(s@)
}

pub open spec fn expr_m(e: EnumExpr) -> ExprM
    decreases e,
{
    match e {
        EnumExpr::Int(v) => ExprM::Int(v as int),
        EnumExpr::Ident(s) => ExprM::Ident(str_m(s)),
        EnumExpr::Shift(v) => ExprM::Shift(exprs_m(v@)),
        EnumExpr::BitOr(v) => ExprM::BitOr(exprs_m(v@)),
    }
}

pub open spec fn exprs_m(s: Seq<EnumExpr>) -> Seq<ExprM>
    decreases s,
{
    if s.len() == 0 {
        Seq::empty()
    } else {
        exprs_m(s.drop_last()).push(expr_m(s.last()))
    }
}

pub open spec fn opt_expr_m(e: Option<EnumExpr>) -> Option<ExprM> {
    match e {
        Some(x) => Some(expr_m(x)),
        None => None,
    }
}

pub open spec fn variants_m(s: Seq<EnumVariant>) -> Seq<VariantM> {
    s.map_values(|v: EnumVariant| VariantM { name: str_m(v.name), value: opt_expr_m(v.value) })
}

pub open spec fn item_m(i: HeaderItem) -> ItemM
    decreases i,
{
    match i {
        HeaderItem::Enum(d) => ItemM::Enum(
            match d.name {
                Some(n) => Some(str_m(n)),
                None => None,
            },
            variants_m(d.variants@),
        ),
        HeaderItem::Define(d) => ItemM::Define(str_m(d.name), d.value as int),
        HeaderItem::Namespace(n) => ItemM::Namespace(str_m(n.name), items_m(n.items@)),
        HeaderItem::IfDef(f) => ItemM::IfDef(
            str_m(f.condition),
            items_m(f.if_branch@),
            match f.else_branch {
                Some(e) => Some(items_m(e@)),
                None => None,
            },
            f.inverted,
        ),
    }
}

pub open spec fn items_m(s: Seq<HeaderItem>) -> Seq<ItemM>
    decreases s,
{
    if s.len() == 0 {
        Seq::empty()
    } else {
        items_m(s.drop_last()).push(item_m(s.last()))
    }
}

pub open spec fn err_m(k: TextParseErrorKind) -> TextErrM {
    match k {
        TextParseErrorKind::UnexpectedToken { expected } => TextErrM::UnexpectedToken(expected@),
        TextParseErrorKind::InvalidNumber => TextErrM::InvalidNumber,
        TextParseErrorKind::UnterminatedEnum => TextErrM::UnterminatedEnum,
        TextParseErrorKind::UnterminatedNamespace => TextErrM::UnterminatedNamespace,
        TextParseErrorKind::UnterminatedIfDef => TextErrM::UnterminatedIfDef,
        TextParseErrorKind::UnknownItem => TextErrM::UnknownItem,
        TextParseErrorKind::UnterminatedString => TextErrM::UnterminatedString,
        TextParseErrorKind::UnterminatedBlockComment => TextErrM::UnterminatedBlockComment,
        TextParseErrorKind::UnexpectedChar(c) => TextErrM::UnexpectedChar(c),
    }
}

pub open spec fn tok_m(t: Token) -> TokM {
    (t.kind, t.span.start as int, t.source.spec_bytes())
}

pub open spec fn toks_m(ts: Seq<Token>) -> Seq<TokM> {
    ts.map_values(|t: Token| tok_m(t))
}

/// A token stream as the lexer delivers it: a single `Eof`, at the end.
pub open spec fn stream_ok(ts: Seq<TokM>) -> bool {
    &&& ts.len() >= 1
    &&& ts.last().0 == TokenKind::Eof
    &&& forall|i: int| 0 <= i < ts.len() - 1 ==> (#[trigger] ts[i]).0 != TokenKind::Eof
}

pub open spec fn kind_at(ts: Seq<TokM>, i: int) -> TokenKind {
    if 0 <= i < ts.len() {
        ts[i].0
    } else {
        TokenKind::Eof
    }
}

pub open spec fn pos_at(ts: Seq<TokM>, i: int) -> int {
    if 0 <= i < ts.len() {
        ts[i].1
    } else {
        0
    }
}

pub open spec fn src_at(ts: Seq<TokM>, i: int) -> Seq<u8> {
    if 0 <= i < ts.len() {
        ts[i].2
    } else {
        Seq::empty()
    }
}

/// "`what`, found `k`".
pub open spec fn found(what: Seq<char>, k: TokenKind) -> TextErrM {
    TextErrM::UnexpectedToken(what + ", found "@ + describe_m(k))
}

/// An identifier at `i`, else the error naming `what`.
pub open spec fn ident_m(ts: Seq<TokM>, i: int, what: Seq<char>) -> Result<(Seq<u8>, int), PErr> {
    if kind_at(ts, i) == TokenKind::Ident {
        Ok((src_at(ts, i), i + 1))
    } else {
        Err((pos_at(ts, i), found(what, kind_at(ts, i))))
    }
}

/// A token of kind `k` at `i`, else the error naming it.
pub open spec fn expect_m(ts: Seq<TokM>, i: int, k: TokenKind) -> Result<int, PErr> {
    if kind_at(ts, i) == k {
        Ok(i + 1)
    } else {
        Err((pos_at(ts, i), found(describe_m(k), kind_at(ts, i))))
    }
}

/// A `;` at `i` is skipped.
pub open spec fn skip_semi(ts: Seq<TokM>, i: int) -> int {
    if kind_at(ts, i) == TokenKind::Semi {
        i + 1
    } else {
        i
    }
}

/// A number or an identifier.
pub open spec fn leaf_m(ts: Seq<TokM>, i: int) -> Result<(ExprM, int), PErr> {
    match kind_at(ts, i) {
        TokenKind::Number => match i64_of(src_at(ts, i)) {
            Some(v) => Ok((ExprM::Int(v), i + 1)),
            None => Err((pos_at(ts, i), TextErrM::InvalidNumber)),
        },
        TokenKind::Ident => Ok((ExprM::Ident(src_at(ts, i)), i + 1)),
        k => Err((pos_at(ts, i), found("number or identifier"@, k))),
    }
}

/// The `<< leaf` terms after `acc`.
pub open spec fn shift_rest(ts: Seq<TokM>, i: int, acc: Seq<ExprM>) -> Result<(Seq<ExprM>, int), PErr>
    decreases ts.len() - i,
{
    if 0 <= i < ts.len() && kind_at(ts, i) == TokenKind::Shl {
        match leaf_m(ts, i + 1) {
            Ok((e, j)) => if i < j <= ts.len() {
                shift_rest(ts, j, acc.push(e))
            } else {
                Ok((acc, i))
            },
            Err(x) => Err(x),
        }
    } else {
        Ok((acc, i))
    }
}

/// `leaf (<< leaf)*`: a lone leaf, or the shift of the terms.
pub open spec fn shift_m(ts: Seq<TokM>, i: int) -> Result<(ExprM, int), PErr> {
    match leaf_m(ts, i) {
        Ok((e, j)) => match shift_rest(ts, j, seq![e]) {
            Ok((terms, k)) => Ok(
                (
                    if terms.len() == 1 {
                        terms[0]
                    } else {
                        ExprM::Shift(terms)
                    },
                    k,
                ),
            ),
            Err(x) => Err(x),
        },
        Err(x) => Err(x),
    }
}

/// The `| shift` terms after `acc`.
pub open spec fn bitor_rest(ts: Seq<TokM>, i: int, acc: Seq<ExprM>) -> Result<(Seq<ExprM>, int), PErr>
    decreases ts.len() - i,
{
    if 0 <= i < ts.len() && kind_at(ts, i) == TokenKind::Pipe {
        match shift_m(ts, i + 1) {
            Ok((e, j)) => if i < j <= ts.len() {
                bitor_rest(ts, j, acc.push(e))
            } else {
                Ok((acc, i))
            },
            Err(x) => Err(x),
        }
    } else {
        Ok((acc, i))
    }
}

/// `shift (| shift)*`: a lone term, or the or of the terms.
pub open spec fn bitor_m(ts: Seq<TokM>, i: int) -> Result<(ExprM, int), PErr> {
    match shift_m(ts, i) {
        Ok((e, j)) => match bitor_rest(ts, j, seq![e]) {
            Ok((terms, k)) => Ok(
                (
                    if terms.len() == 1 {
                        terms[0]
                    } else {
                        ExprM::BitOr(terms)
                    },
                    k,
                ),
            ),
            Err(x) => Err(x),
        },
        Err(x) => Err(x),
    }
}

/// `name (= expr)?`.
pub open spec fn variant_m(ts: Seq<TokM>, i: int) -> Result<(VariantM, int), PErr> {
    match ident_m(ts, i, "identifier"@) {
        Ok((name, j)) => if kind_at(ts, j) == TokenKind::Eq {
            match bitor_m(ts, j + 1) {
                Ok((e, k)) => Ok((VariantM { name, value: Some(e) }, k)),
                Err(x) => Err(x),
            }
        } else {
            Ok((VariantM { name, value: None }, j))
        },
        Err(x) => Err(x),
    }
}

/// The variants after `acc`, up to the closing `}` (not taken).
pub open spec fn variants_rest(ts: Seq<TokM>, i: int, acc: Seq<VariantM>) -> Result<(Seq<VariantM>, int), PErr>
    decreases ts.len() - i,
{
    if kind_at(ts, i) == TokenKind::Eof {
        Err((pos_at(ts, i), TextErrM::UnterminatedEnum))
    } else if kind_at(ts, i) == TokenKind::RBrace {
        Ok((acc, i))
    } else {
        match variant_m(ts, i) {
            Ok((v, j)) => if kind_at(ts, j) == TokenKind::Comma {
                if i < j + 1 <= ts.len() {
                    variants_rest(ts, j + 1, acc.push(v))
                } else {
                    Ok((acc, i))
                }
            } else {
                Ok((acc.push(v), j))
            },
            Err(x) => Err(x),
        }
    }
}

/// After `enum`: `name? { variants } ;?`.
pub open spec fn enum_body_m(ts: Seq<TokM>, i: int) -> Result<(ItemM, int), PErr> {
    let (name, j) = if kind_at(ts, i) == TokenKind::Ident {
        (Some(src_at(ts, i)), i + 1)
    } else {
        (None, i)
    };
    match expect_m(ts, j, TokenKind::LBrace) {
        Ok(k) => match variants_rest(ts, k, Seq::empty()) {
            Ok((vs, l)) => match expect_m(ts, l, TokenKind::RBrace) {
                Ok(m) => Ok((ItemM::Enum(name, vs), skip_semi(ts, m))),
                Err(x) => Err(x),
            },
            Err(x) => Err(x),
        },
        Err(x) => Err(x),
    }
}

/// After `#define`: `name number`.
pub open spec fn define_body_m(ts: Seq<TokM>, i: int) -> Result<(ItemM, int), PErr> {
    match ident_m(ts, i, "identifier"@) {
        Ok((name, j)) => if kind_at(ts, j) != TokenKind::Number {
            Err((pos_at(ts, j), found("number"@, kind_at(ts, j))))
        } else {
            match i64_of(src_at(ts, j)) {
                Some(v) => Ok((ItemM::Define(name, v), j + 1)),
                None => Err((pos_at(ts, j), TextErrM::InvalidNumber)),
            }
        },
        Err(x) => Err(x),
    }
}

/// One item: `enum`, `#define`, `namespace`, `#ifdef` or `#ifndef`.
pub open spec fn item_at_m(ts: Seq<TokM>, i: int) -> Result<(ItemM, int), PErr>
    decreases ts.len() - i, 0int,
{
    if !(0 <= i < ts.len()) {
        Err((pos_at(ts, i), TextErrM::UnknownItem))
    } else {
        match kind_at(ts, i) {
            TokenKind::Enum => enum_body_m(ts, i + 1),
            TokenKind::Define => define_body_m(ts, i + 1),
            TokenKind::Namespace => namespace_body_m(ts, i + 1),
            TokenKind::Ifdef => ifdef_body_m(ts, i + 1, false),
            TokenKind::Ifndef => ifdef_body_m(ts, i + 1, true),
            _ => Err((pos_at(ts, i), TextErrM::UnknownItem)),
        }
    }
}

/// Items after `acc` up to a token of kind `stop1` or `stop2` (not taken);
/// running into the end is the error `unterminated`.
pub open spec fn items_until(
    ts: Seq<TokM>,
    i: int,
    acc: Seq<ItemM>,
    stop1: TokenKind,
    stop2: TokenKind,
    unterminated: TextErrM,
) -> Result<(Seq<ItemM>, int), PErr>
    decreases ts.len() - i, 1int,
{
    if !(0 <= i < ts.len()) || kind_at(ts, i) == TokenKind::Eof {
        Err((pos_at(ts, i), unterminated))
    } else if kind_at(ts, i) == stop1 || kind_at(ts, i) == stop2 {
        Ok((acc, i))
    } else {
        match item_at_m(ts, i) {
            Ok((it, j)) => if i < j <= ts.len() {
                items_until(ts, j, acc.push(it), stop1, stop2, unterminated)
            } else {
                Ok((acc, i))
            },
            Err(x) => Err(x),
        }
    }
}

/// After `namespace`: `name { items } ;?`.
pub open spec fn namespace_body_m(ts: Seq<TokM>, i: int) -> Result<(ItemM, int), PErr>
    decreases ts.len() - i, 2int,
{
    match ident_m(ts, i, "identifier"@) {
        Ok((name, j)) => match expect_m(ts, j, TokenKind::LBrace) {
            Ok(k) => if 0 <= i < k <= ts.len() {
                match items_until(
                    ts,
                    k,
                    Seq::empty(),
                    TokenKind::RBrace,
                    TokenKind::RBrace,
                    TextErrM::UnterminatedNamespace,
                ) {
                    Ok((items, l)) => match expect_m(ts, l, TokenKind::RBrace) {
                        Ok(m) => Ok((ItemM::Namespace(name, items), skip_semi(ts, m))),
                        Err(x) => Err(x),
                    },
                    Err(x) => Err(x),
                }
            } else {
                Err((pos_at(ts, i), TextErrM::UnterminatedNamespace))
            },
            Err(x) => Err(x),
        },
        Err(x) => Err(x),
    }
}

/// After `#ifdef`/`#ifndef`: `name items (#else items)? #endif`.
pub open spec fn ifdef_body_m(ts: Seq<TokM>, i: int, inverted: bool) -> Result<(ItemM, int), PErr>
    decreases ts.len() - i, 2int,
{
    match ident_m(ts, i, "identifier"@) {
        Ok((cond, j)) => if 0 <= i < j <= ts.len() {
            match items_until(
                ts,
                j,
                Seq::empty(),
                TokenKind::Else,
                TokenKind::Endif,
                TextErrM::UnterminatedIfDef,
            ) {
                Ok((if_items, k)) => if kind_at(ts, k) == TokenKind::Else {
                    if i < k + 1 <= ts.len() {
                        match items_until(
                            ts,
                            k + 1,
                            Seq::empty(),
                            TokenKind::Endif,
                            TokenKind::Endif,
                            TextErrM::UnterminatedIfDef,
                        ) {
                            Ok((else_items, l)) => match expect_m(ts, l, TokenKind::Endif) {
                                Ok(m) => Ok((ItemM::IfDef(cond, if_items, Some(else_items), inverted), m)),
                                Err(x) => Err(x),
                            },
                            Err(x) => Err(x),
                        }
                    } else {
                        Err((pos_at(ts, i), TextErrM::UnterminatedIfDef))
                    }
                } else {
                    match expect_m(ts, k, TokenKind::Endif) {
                        Ok(m) => Ok((ItemM::IfDef(cond, if_items, None, inverted), m)),
                        Err(x) => Err(x),
                    }
                },
                Err(x) => Err(x),
            }
        } else {
            Err((pos_at(ts, i), TextErrM::UnterminatedIfDef))
        },
        Err(x) => Err(x),
    }
}

/// Where the `#pragma once` / include-guard prologue starting at `i` ends.
pub open spec fn prologue_end(ts: Seq<TokM>, i: int) -> int {
    let a = if kind_at(ts, i) == TokenKind::Pragma {
        if kind_at(ts, i + 1) == TokenKind::Ident {
            i + 2
        } else {
            i + 1
        }
    } else {
        i
    };
    if kind_at(ts, a) == TokenKind::Ifndef {
        let b = if kind_at(ts, a + 1) == TokenKind::Ident {
            a + 2
        } else {
            a + 1
        };
        if kind_at(ts, b) == TokenKind::Define {
            let c = if kind_at(ts, b + 1) == TokenKind::Ident {
                b + 2
            } else {
                b + 1
            };
            if kind_at(ts, c) == TokenKind::Number {
                c + 1
            } else {
                c
            }
        } else {
            b
        }
    } else {
        a
    }
}

/// The top-level items from `i`, up to the end or an `#endif`.
pub open spec fn file_items(ts: Seq<TokM>, i: int, acc: Seq<ItemM>) -> Result<Seq<ItemM>, PErr>
    decreases ts.len() - i,
{
    if !(0 <= i < ts.len()) || kind_at(ts, i) == TokenKind::Eof || kind_at(ts, i) == TokenKind::Endif {
        Ok(acc)
    } else {
        match item_at_m(ts, i) {
            Ok((it, j)) => if i < j <= ts.len() {
                file_items(ts, j, acc.push(it))
            } else {
                Ok(acc)
            },
            Err(x) => Err(x),
        }
    }
}

/// The items of a header file's tokens: the prologue skipped, then the
/// items up to the end or an `#endif`, after which everything is ignored.
pub open spec fn parse_file_m(ts: Seq<TokM>) -> Result<Seq<ItemM>, PErr> {
    file_items(ts, prologue_end(ts, 0), Seq::empty())
}

/// A lex error as a parse error.
pub open spec fn lex_err_m(k: LexErrorKind) -> TextErrM {
    match k {
        LexErrorKind::UnterminatedString => TextErrM::UnterminatedString,
        LexErrorKind::UnterminatedBlockComment => TextErrM::UnterminatedBlockComment,
        LexErrorKind::UnexpectedChar(c) => TextErrM::UnexpectedChar(c),
    }
}

/// The model's tokens for the spans `ts` of `b`.
pub open spec fn spans_m(b: Seq<u8>, ts: Seq<TokSpan>) -> Seq<TokM> {
    ts.map_values(|t: TokSpan| (t.0, t.1, b.subrange(t.1, t.2)))
}

/// The outcome of parsing the header text whose UTF-8 bytes are `b`.
pub open spec fn header_m(b: Seq<u8>) -> Result<Seq<ItemM>, PErr> {
    match lex_spec(b, 0, true) {
        Ok(ts) => parse_file_m(spans_m(b, ts)),
        Err((k, s, _e)) => Err((s, lex_err_m(k))),
    }
}

/// A short human name for a token kind, for "expected …, found …" messages.
pub open spec fn describe_m(k: TokenKind) -> Seq<char> {
    match k {
        TokenKind::Ident => "identifier"@,
        TokenKind::Number => "number"@,
        TokenKind::Str => "string"@,
        TokenKind::Definition => "#definition"@,
        TokenKind::DefinitionTemplate => "#definition_template"@,
        TokenKind::EndDefinition => "#end_definition"@,
        TokenKind::Define => "#define"@,
        TokenKind::Ifdef => "#ifdef"@,
        TokenKind::Ifndef => "#ifndef"@,
        TokenKind::Else => "#else"@,
        TokenKind::Endif => "#endif"@,
        TokenKind::Pragma => "#pragma"@,
        TokenKind::Namespace => "namespace"@,
        TokenKind::Enum => "enum"@,
        TokenKind::Dot => "."@,
        TokenKind::LBracket => "["@,
        TokenKind::RBracket => "]"@,
        TokenKind::LParen => "("@,
        TokenKind::RParen => ")"@,
        TokenKind::LBrace => "{"@,
        TokenKind::RBrace => "}"@,
        TokenKind::Lt => "<"@,
        TokenKind::Gt => ">"@,
        TokenKind::Backslash => "\\"@,
        TokenKind::Pipe => "|"@,
        TokenKind::Plus => "+"@,
        TokenKind::Shl => "<<"@,
        TokenKind::Eq => "="@,
        TokenKind::Comma => ","@,
        TokenKind::Semi => ";"@,
        TokenKind::Eof => "end of input"@,
    }
}

/// A short human name for a token kind (see [`describe_m`]).
pub fn describe(k: TokenKind) -> (r: &'static str)
    ensures
        r@ == describe_m(k),
{
    match k {
        TokenKind::Ident => "identifier",
        TokenKind::Number => "number",
        TokenKind::Str => "string",
        TokenKind::Definition => "#definition",
        TokenKind::DefinitionTemplate => "#definition_template",
        TokenKind::EndDefinition => "#end_definition",
        TokenKind::Define => "#define",
        TokenKind::Ifdef => "#ifdef",
        TokenKind::Ifndef => "#ifndef",
        TokenKind::Else => "#else",
        TokenKind::Endif => "#endif",
        TokenKind::Pragma => "#pragma",
        TokenKind::Namespace => "namespace",
        TokenKind::Enum => "enum",
        TokenKind::Dot => ".",
        TokenKind::LBracket => "[",
        TokenKind::RBracket => "]",
        TokenKind::LParen => "(",
        TokenKind::RParen => ")",
        TokenKind::LBrace => "{",
        TokenKind::RBrace => "}",
        TokenKind::Lt => "<",
        TokenKind::Gt => ">",
        TokenKind::Backslash => "\\",
        TokenKind::Pipe => "|",
        TokenKind::Plus => "+",
        TokenKind::Shl => "<<",
        TokenKind::Eq => "=",
        TokenKind::Comma => ",",
        TokenKind::Semi => ";",
        TokenKind::Eof => "end of input",
    }
}
// ── the parser ────────────────────────────────────────────────────────────────

/// "`what`, found `k`".
fn found_message(what: &str, k: TokenKind) -> (r: String)
    ensures
        r@ == what@ + ", found "@ + describe_m(k),
{
    let mut s = what.to_owned();
    s.append(", found ");
    s.append(describe(k));
    s
}

fn err_at(ts: &[Token], i: usize, kind: TextParseErrorKind) -> (r: HeaderParseError)
    requires
        i < ts@.len(),
    ensures
        r.pos == ts@[i as int].span.start,
        r.inner == kind,
{
    ParseError::new(ts[i].span.start, kind)
}

/// The outcome `r` of an exec production against the model's `m`.
pub open spec fn err_matches(r: HeaderParseError, e: PErr) -> bool {
    r.pos == e.0 && err_m(r.inner) == e.1
}

proof fn lemma_toks_m(ts: Seq<Token>, i: int)
    requires
        0 <= i < ts.len(),
    ensures
        toks_m(ts)[i] == tok_m(ts[i]),
        toks_m(ts).len() == ts.len(),
        kind_at(toks_m(ts), i) == ts[i].kind,
        pos_at(toks_m(ts), i) == ts[i].span.start as int,
        src_at(toks_m(ts), i) == ts[i].source.spec_bytes(),
{
}

/// A token that is not `Eof` is followed by another.
proof fn lemma_not_last(ts: Seq<Token>, i: int)
    requires
        stream_ok(toks_m(ts)),
        0 <= i < ts.len(),
        ts[i].kind != TokenKind::Eof,
    ensures
        i + 1 < ts.len(),
{
    let m = toks_m(ts);
    assert(m.last() == m[m.len() - 1]);
}

fn expect_ident_at(ts: &[Token], i: usize, what: &str) -> (r: Result<(String, usize), HeaderParseError>)
    requires
        stream_ok(toks_m(ts@)),
        i < ts@.len(),
    ensures
        match ident_m(toks_m(ts@), i as int, what@) {
            Ok((n, j)) => r matches Ok((s, k)) && str_m(s) == n && k == j && k < ts@.len(),
            Err(e) => r matches Err(x) && err_matches(x, e),
        },
{
    proof {
        lemma_toks_m(ts@, i as int);
    }
    if ts[i].kind == TokenKind::Ident {
        proof {
            lemma_not_last(ts@, i as int);
        }
        let s = ts[i].source.to_owned();
        Ok((s, i + 1))
    } else {
        let m = found_message(what, ts[i].kind);
        Err(err_at(ts, i, TextParseErrorKind::UnexpectedToken { expected: m }))
    }
}

fn expect_at(ts: &[Token], i: usize, k: TokenKind) -> (r: Result<usize, HeaderParseError>)
    requires
        stream_ok(toks_m(ts@)),
        i < ts@.len(),
        k != TokenKind::Eof,
    ensures
        match expect_m(toks_m(ts@), i as int, k) {
            Ok(j) => r matches Ok(k) && k == j && j < ts@.len(),
            Err(e) => r matches Err(x) && err_matches(x, e),
        },
{
    proof {
        lemma_toks_m(ts@, i as int);
    }
    if ts[i].kind == k {
        proof {
            lemma_not_last(ts@, i as int);
        }
        Ok(i + 1)
    } else {
        let m = found_message(describe(k), ts[i].kind);
        Err(err_at(ts, i, TextParseErrorKind::UnexpectedToken { expected: m }))
    }
}

fn leaf_at(ts: &[Token], i: usize) -> (r: Result<(EnumExpr, usize), HeaderParseError>)
    requires
        stream_ok(toks_m(ts@)),
        i < ts@.len(),
    ensures
        match leaf_m(toks_m(ts@), i as int) {
            Ok((m, j)) => r matches Ok((x, k)) && expr_m(x) == m && k == j && k < ts@.len(),
            Err(e) => r matches Err(x) && err_matches(x, e),
        },
{
    proof {
        lemma_toks_m(ts@, i as int);
    }
    let t = ts[i];
    match t.kind {
        TokenKind::Number => {
            proof {
                lemma_not_last(ts@, i as int);
            }
            match parse_i64(t.source) {
                Some(v) => Ok((EnumExpr::Int(v), i + 1)),
                None => Err(err_at(ts, i, TextParseErrorKind::InvalidNumber)),
            }
        },
        TokenKind::Ident => {
            proof {
                lemma_not_last(ts@, i as int);
            }
            Ok((EnumExpr::Ident(t.source.to_owned()), i + 1))
        },
        k => {
            let m = found_message("number or identifier", k);
            Err(err_at(ts, i, TextParseErrorKind::UnexpectedToken { expected: m }))
        },
    }
}

proof fn lemma_exprs_m_push(s: Seq<EnumExpr>, e: EnumExpr)
    ensures
        exprs_m(s.push(e)) == exprs_m(s).push(expr_m(e)),
{
    assert(s.push(e).drop_last() =~= s);
}

pub proof fn lemma_exprs_m_index(s: Seq<EnumExpr>)
    ensures
        exprs_m(s).len() == s.len(),
        forall|k: int| 0 <= k < s.len() ==> #[trigger] exprs_m(s)[k] == expr_m(s[k]),
    decreases s.len(),
{
    if s.len() > 0 {
        lemma_exprs_m_index(s.drop_last());
        assert forall|k: int| 0 <= k < s.len() implies #[trigger] exprs_m(s)[k] == expr_m(s[k]) by {
            if k < s.len() - 1 {
                assert(s.drop_last()[k] == s[k]);
            }
        }
    }
}

proof fn lemma_exprs_m_one(e: EnumExpr)
    ensures
        exprs_m(seq![e]) == seq![expr_m(e)],
{
    lemma_exprs_m_push(Seq::empty(), e);
    assert(Seq::<EnumExpr>::empty().push(e) =~= seq![e]);
    assert(Seq::<ExprM>::empty().push(expr_m(e)) =~= seq![expr_m(e)]);
}

fn shift_at(ts: &[Token], i: usize) -> (r: Result<(EnumExpr, usize), HeaderParseError>)
    requires
        stream_ok(toks_m(ts@)),
        i < ts@.len(),
    ensures
        match shift_m(toks_m(ts@), i as int) {
            Ok((m, j)) => r matches Ok((x, k)) && expr_m(x) == m && k == j && i < k < ts@.len(),
            Err(e) => r matches Err(x) && err_matches(x, e),
        },
{
    let ghost tm = toks_m(ts@);
    let (first, mut j) = leaf_at(ts, i)?;
    let mut terms: Vec<EnumExpr> = Vec::new();
    terms.push(first);
    proof {
        lemma_exprs_m_one(first);
        assert(terms@ =~= seq![first]);
    }
    while ts[j].kind == TokenKind::Shl
        invariant
            stream_ok(tm),
            tm == toks_m(ts@),
            i < j < ts@.len(),
            terms@.len() >= 1,
            shift_rest(tm, (i + 1) as int, seq![expr_m(first)]) == shift_rest(tm, j as int, exprs_m(terms@)),
            leaf_m(tm, i as int) == Ok::<(ExprM, int), PErr>((expr_m(first), (i + 1) as int)),
        decreases ts@.len() - j,
    {
        proof {
            lemma_toks_m(ts@, j as int);
            lemma_not_last(ts@, j as int);
        }
        let (e, k) = leaf_at(ts, j + 1)?;
        proof {
            lemma_exprs_m_push(terms@, e);
        }
        terms.push(e);
        j = k;
    }
    proof {
        lemma_toks_m(ts@, j as int);
        lemma_exprs_m_index(terms@);
    }
    if terms.len() == 1 {
        let mut terms = terms;
        let ghost t0 = terms@;
        let e = terms.pop().unwrap();
        assert(e == t0[0]);
        Ok((e, j))
    } else {
        Ok((EnumExpr::Shift(terms), j))
    }
}

fn bitor_at(ts: &[Token], i: usize) -> (r: Result<(EnumExpr, usize), HeaderParseError>)
    requires
        stream_ok(toks_m(ts@)),
        i < ts@.len(),
    ensures
        match bitor_m(toks_m(ts@), i as int) {
            Ok((m, j)) => r matches Ok((x, k)) && expr_m(x) == m && k == j && i < k < ts@.len(),
            Err(e) => r matches Err(x) && err_matches(x, e),
        },
{
    let ghost tm = toks_m(ts@);
    let (first, mut j) = shift_at(ts, i)?;
    let ghost j0 = j as int;
    let mut terms: Vec<EnumExpr> = Vec::new();
    terms.push(first);
    proof {
        lemma_exprs_m_one(first);
        assert(terms@ =~= seq![first]);
    }
    while ts[j].kind == TokenKind::Pipe
        invariant
            stream_ok(tm),
            tm == toks_m(ts@),
            i < j0 <= j < ts@.len(),
            terms@.len() >= 1,
            bitor_rest(tm, j0, seq![expr_m(first)]) == bitor_rest(tm, j as int, exprs_m(terms@)),
            shift_m(tm, i as int) == Ok::<(ExprM, int), PErr>((expr_m(first), j0)),
        decreases ts@.len() - j,
    {
        proof {
            lemma_toks_m(ts@, j as int);
            lemma_not_last(ts@, j as int);
        }
        let (e, k) = shift_at(ts, j + 1)?;
        proof {
            lemma_exprs_m_push(terms@, e);
        }
        terms.push(e);
        j = k;
    }
    proof {
        lemma_toks_m(ts@, j as int);
        lemma_exprs_m_index(terms@);
    }
    if terms.len() == 1 {
        let mut terms = terms;
        let ghost t0 = terms@;
        let e = terms.pop().unwrap();
        assert(e == t0[0]);
        Ok((e, j))
    } else {
        Ok((EnumExpr::BitOr(terms), j))
    }
}

fn variant_at(ts: &[Token], i: usize) -> (r: Result<(EnumVariant, usize), HeaderParseError>)
    requires
        stream_ok(toks_m(ts@)),
        i < ts@.len(),
    ensures
        match variant_m(toks_m(ts@), i as int) {
            Ok((m, j)) => r matches Ok((v, k)) && (VariantM { name: str_m(v.name), value: opt_expr_m(v.value) }) == m
                && k == j && i < k < ts@.len(),
            Err(e) => r matches Err(x) && err_matches(x, e),
        },
{
    let (name, j) = expect_ident_at(ts, i, "identifier")?;
    proof {
        lemma_toks_m(ts@, j as int);
    }
    if ts[j].kind == TokenKind::Eq {
        proof {
            lemma_not_last(ts@, j as int);
        }
        let (e, k) = bitor_at(ts, j + 1)?;
        Ok((EnumVariant { name, value: Some(e) }, k))
    } else {
        Ok((EnumVariant { name, value: None }, j))
    }
}

proof fn lemma_variants_m_push(s: Seq<EnumVariant>, v: EnumVariant)
    ensures
        variants_m(s.push(v)) == variants_m(s).push(VariantM { name: str_m(v.name), value: opt_expr_m(v.value) }),
{
    assert(variants_m(s.push(v)) =~= variants_m(s).push(VariantM { name: str_m(v.name), value: opt_expr_m(v.value) }));
}

/// The variants from `k`, up to the closing `}` (not taken).
fn variants_at(ts: &[Token], k: usize) -> (r: Result<(Vec<EnumVariant>, usize), HeaderParseError>)
    requires
        stream_ok(toks_m(ts@)),
        k < ts@.len(),
    ensures
        match variants_rest(toks_m(ts@), k as int, Seq::empty()) {
            Ok((m, j)) => r matches Ok((v, l)) && variants_m(v@) == m && l == j && k <= l < ts@.len(),
            Err(e) => r matches Err(x) && err_matches(x, e),
        },
{
    let ghost tm = toks_m(ts@);
    let mut variants: Vec<EnumVariant> = Vec::new();
    let mut l = k;
    assert(variants_m(variants@) =~= Seq::<VariantM>::empty());
    loop
        invariant
            stream_ok(tm),
            tm == toks_m(ts@),
            k <= l < ts@.len(),
            variants_rest(tm, k as int, Seq::empty()) == variants_rest(tm, l as int, variants_m(variants@)),
        decreases ts@.len() - l,
    {
        proof {
            lemma_toks_m(ts@, l as int);
        }
        if ts[l].kind == TokenKind::Eof {
            return Err(err_at(ts, l, TextParseErrorKind::UnterminatedEnum));
        }
        if ts[l].kind == TokenKind::RBrace {
            return Ok((variants, l));
        }
        let (v, m) = variant_at(ts, l)?;
        proof {
            lemma_variants_m_push(variants@, v);
            lemma_toks_m(ts@, m as int);
        }
        variants.push(v);
        if ts[m].kind == TokenKind::Comma {
            proof {
                lemma_not_last(ts@, m as int);
            }
            l = m + 1;
        } else {
            return Ok((variants, m));
        }
    }
}

fn enum_body_at(ts: &[Token], i: usize) -> (r: Result<(EnumDecl, usize), HeaderParseError>)
    requires
        stream_ok(toks_m(ts@)),
        i < ts@.len(),
    ensures
        match enum_body_m(toks_m(ts@), i as int) {
            Ok((m, j)) => r matches Ok((d, k)) && item_m(HeaderItem::Enum(d)) == m && k == j && i <= k < ts@.len(),
            Err(e) => r matches Err(x) && err_matches(x, e),
        },
{
    proof {
        lemma_toks_m(ts@, i as int);
    }
    let (name, j) = if ts[i].kind == TokenKind::Ident {
        proof {
            lemma_not_last(ts@, i as int);
        }
        (Some(ts[i].source.to_owned()), i + 1)
    } else {
        (None, i)
    };
    let k = expect_at(ts, j, TokenKind::LBrace)?;
    let (variants, l) = variants_at(ts, k)?;
    let m = expect_at(ts, l, TokenKind::RBrace)?;
    proof {
        lemma_toks_m(ts@, m as int);
    }
    let end = if ts[m].kind == TokenKind::Semi {
        proof {
            lemma_not_last(ts@, m as int);
        }
        m + 1
    } else {
        m
    };
    let d = EnumDecl { name, variants };
    Ok((d, end))
}

fn define_body_at(ts: &[Token], i: usize) -> (r: Result<(Define, usize), HeaderParseError>)
    requires
        stream_ok(toks_m(ts@)),
        i < ts@.len(),
    ensures
        match define_body_m(toks_m(ts@), i as int) {
            Ok((m, j)) => r matches Ok((d, k)) && item_m(HeaderItem::Define(d)) == m && k == j && i < k < ts@.len(),
            Err(e) => r matches Err(x) && err_matches(x, e),
        },
{
    let (name, j) = expect_ident_at(ts, i, "identifier")?;
    proof {
        lemma_toks_m(ts@, j as int);
    }
    let t = ts[j];
    if t.kind != TokenKind::Number {
        let m = found_message("number", t.kind);
        return Err(err_at(ts, j, TextParseErrorKind::UnexpectedToken { expected: m }));
    }
    proof {
        lemma_not_last(ts@, j as int);
    }
    match parse_i64(t.source) {
        Some(value) => Ok((Define { name, value }, j + 1)),
        None => Err(err_at(ts, j, TextParseErrorKind::InvalidNumber)),
    }
}

pub proof fn lemma_items_m_push(s: Seq<HeaderItem>, it: HeaderItem)
    ensures
        items_m(s.push(it)) == items_m(s).push(item_m(it)),
{
    assert(s.push(it).drop_last() =~= s);
}

/// One header item (`enum`/`#define`/`namespace`/`#ifdef`/`#ifndef`) at
/// token `i`.
pub fn item_at(ts: &[Token], i: usize) -> (r: Result<(HeaderItem, usize), HeaderParseError>)
    requires
        stream_ok(toks_m(ts@)),
        i < ts@.len(),
    ensures
        match item_at_m(toks_m(ts@), i as int) {
            Ok((m, j)) => r matches Ok((it, k)) && item_m(it) == m && k == j && i < k < ts@.len(),
            Err(e) => r matches Err(x) && err_matches(x, e),
        },
    decreases ts@.len() - i, 0int,
{
    proof {
        lemma_toks_m(ts@, i as int);
    }
    match ts[i].kind {
        TokenKind::Enum => {
            proof {
                lemma_not_last(ts@, i as int);
            }
            let (d, k) = enum_body_at(ts, i + 1)?;
            Ok((HeaderItem::Enum(d), k))
        },
        TokenKind::Define => {
            proof {
                lemma_not_last(ts@, i as int);
            }
            let (d, k) = define_body_at(ts, i + 1)?;
            Ok((HeaderItem::Define(d), k))
        },
        TokenKind::Namespace => {
            proof {
                lemma_not_last(ts@, i as int);
            }
            let (n, k) = namespace_body_at(ts, i + 1)?;
            Ok((HeaderItem::Namespace(n), k))
        },
        TokenKind::Ifdef => {
            proof {
                lemma_not_last(ts@, i as int);
            }
            let (f, k) = ifdef_body_at(ts, i + 1, false)?;
            Ok((HeaderItem::IfDef(f), k))
        },
        TokenKind::Ifndef => {
            proof {
                lemma_not_last(ts@, i as int);
            }
            let (f, k) = ifdef_body_at(ts, i + 1, true)?;
            Ok((HeaderItem::IfDef(f), k))
        },
        _ => Err(err_at(ts, i, TextParseErrorKind::UnknownItem)),
    }
}

/// Items from `i` up to a token of kind `stop1` or `stop2` (not taken).
fn items_until_at(
    ts: &[Token],
    i: usize,
    stop1: TokenKind,
    stop2: TokenKind,
    unterminated: TextParseErrorKind,
) -> (r: Result<(Vec<HeaderItem>, usize), HeaderParseError>)
    requires
        stream_ok(toks_m(ts@)),
        i < ts@.len(),
        stop1 != TokenKind::Eof,
        stop2 != TokenKind::Eof,
    ensures
        match items_until(toks_m(ts@), i as int, Seq::empty(), stop1, stop2, err_m(unterminated)) {
            Ok((m, j)) => r matches Ok((v, k)) && items_m(v@) == m && k == j && i <= k < ts@.len(),
            Err(e) => r matches Err(x) && err_matches(x, e),
        },
    decreases ts@.len() - i, 1int,
{
    let ghost tm = toks_m(ts@);
    let ghost u = err_m(unterminated);
    let mut items: Vec<HeaderItem> = Vec::new();
    let mut l = i;
    assert(items_m(items@) =~= Seq::<ItemM>::empty());
    loop
        invariant
            stream_ok(tm),
            tm == toks_m(ts@),
            i <= l < ts@.len(),
            u == err_m(unterminated),
            stop1 != TokenKind::Eof,
            stop2 != TokenKind::Eof,
            items_until(tm, i as int, Seq::empty(), stop1, stop2, u) == items_until(
                tm,
                l as int,
                items_m(items@),
                stop1,
                stop2,
                u,
            ),
        decreases ts@.len() - l,
    {
        proof {
            lemma_toks_m(ts@, l as int);
        }
        let k = ts[l].kind;
        if k == TokenKind::Eof {
            return Err(err_at(ts, l, unterminated));
        }
        if k == stop1 || k == stop2 {
            return Ok((items, l));
        }
        let (it, m) = item_at(ts, l)?;
        proof {
            lemma_items_m_push(items@, it);
        }
        items.push(it);
        l = m;
    }
}

/// After `namespace`: `name { items } ;?`.
#[verifier::spinoff_prover]
#[verifier::rlimit(40)]
fn namespace_body_at(ts: &[Token], i: usize) -> (r: Result<(Namespace, usize), HeaderParseError>)
    requires
        stream_ok(toks_m(ts@)),
        i < ts@.len(),
    ensures
        match namespace_body_m(toks_m(ts@), i as int) {
            Ok((m, j)) => r matches Ok((n, k)) && item_m(HeaderItem::Namespace(n)) == m && k == j && i < k < ts@.len(),
            Err(e) => r matches Err(x) && err_matches(x, e),
        },
    decreases ts@.len() - i, 2int,
{
    let ghost tm = toks_m(ts@);
    let (name, j) = expect_ident_at(ts, i, "identifier")?;
    assert(ident_m(tm, i as int, "identifier"@) is Ok);
    assert(j == i + 1);
    let k = expect_at(ts, j, TokenKind::LBrace)?;
    assert(expect_m(tm, j as int, TokenKind::LBrace) is Ok);
    assert(k == j + 1);
    let (items, l) = items_until_at(ts, k, TokenKind::RBrace, TokenKind::RBrace, TextParseErrorKind::UnterminatedNamespace)?;
    let m = expect_at(ts, l, TokenKind::RBrace)?;
    proof {
        lemma_toks_m(ts@, m as int);
    }
    let end = if ts[m].kind == TokenKind::Semi {
        proof {
            lemma_not_last(ts@, m as int);
        }
        m + 1
    } else {
        m
    };
    Ok((Namespace { name, items }, end))
}

/// After `#ifdef`/`#ifndef`: `name items (#else items)? #endif`.
#[verifier::spinoff_prover]
fn ifdef_body_at(ts: &[Token], i: usize, inverted: bool) -> (r: Result<(IfDef, usize), HeaderParseError>)
    requires
        stream_ok(toks_m(ts@)),
        i < ts@.len(),
    ensures
        match ifdef_body_m(toks_m(ts@), i as int, inverted) {
            Ok((m, j)) => r matches Ok((f, k)) && item_m(HeaderItem::IfDef(f)) == m && k == j && i < k < ts@.len(),
            Err(e) => r matches Err(x) && err_matches(x, e),
        },
    decreases ts@.len() - i, 2int,
{
    let (condition, j) = expect_ident_at(ts, i, "identifier")?;
    let (if_branch, k) = items_until_at(ts, j, TokenKind::Else, TokenKind::Endif, TextParseErrorKind::UnterminatedIfDef)?;
    proof {
        lemma_toks_m(ts@, k as int);
    }
    if ts[k].kind == TokenKind::Else {
        proof {
            lemma_not_last(ts@, k as int);
        }
        let (else_items, l) = items_until_at(ts, k + 1, TokenKind::Endif, TokenKind::Endif, TextParseErrorKind::UnterminatedIfDef)?;
        let m = expect_at(ts, l, TokenKind::Endif)?;
        Ok((IfDef { condition, if_branch, else_branch: Some(else_items), inverted }, m))
    } else {
        let m = expect_at(ts, k, TokenKind::Endif)?;
        Ok((IfDef { condition, if_branch, else_branch: None, inverted }, m))
    }
}

fn prologue_at(ts: &[Token], i: usize) -> (r: usize)
    requires
        stream_ok(toks_m(ts@)),
        i < ts@.len(),
    ensures
        r == prologue_end(toks_m(ts@), i as int),
        r < ts@.len(),
{
    let ghost tm = toks_m(ts@);
    proof {
        lemma_toks_m(ts@, i as int);
    }
    let a = if ts[i].kind == TokenKind::Pragma {
        proof {
            lemma_not_last(ts@, i as int);
            lemma_toks_m(ts@, i + 1);
        }
        if ts[i + 1].kind == TokenKind::Ident {
            proof {
                lemma_not_last(ts@, i + 1);
            }
            i + 2
        } else {
            i + 1
        }
    } else {
        i
    };
    proof {
        lemma_toks_m(ts@, a as int);
    }
    if ts[a].kind == TokenKind::Ifndef {
        proof {
            lemma_not_last(ts@, a as int);
            lemma_toks_m(ts@, a + 1);
        }
        let b = if ts[a + 1].kind == TokenKind::Ident {
            proof {
                lemma_not_last(ts@, a + 1);
            }
            a + 2
        } else {
            a + 1
        };
        proof {
            lemma_toks_m(ts@, b as int);
        }
        if ts[b].kind == TokenKind::Define {
            proof {
                lemma_not_last(ts@, b as int);
                lemma_toks_m(ts@, b + 1);
            }
            let c = if ts[b + 1].kind == TokenKind::Ident {
                proof {
                    lemma_not_last(ts@, b + 1);
                }
                b + 2
            } else {
                b + 1
            };
            proof {
                lemma_toks_m(ts@, c as int);
            }
            if ts[c].kind == TokenKind::Number {
                proof {
                    lemma_not_last(ts@, c as int);
                }
                c + 1
            } else {
                c
            }
        } else {
            b
        }
    } else {
        a
    }
}

/// The top-level items from `i`, up to the end or an `#endif`.
fn file_items_at(ts: &[Token], i: usize) -> (r: Result<Vec<HeaderItem>, HeaderParseError>)
    requires
        stream_ok(toks_m(ts@)),
        i < ts@.len(),
    ensures
        match file_items(toks_m(ts@), i as int, Seq::empty()) {
            Ok(m) => r matches Ok(v) && items_m(v@) == m,
            Err(e) => r matches Err(x) && err_matches(x, e),
        },
{
    let ghost tm = toks_m(ts@);
    let mut items: Vec<HeaderItem> = Vec::new();
    let mut l = i;
    assert(items_m(items@) =~= Seq::<ItemM>::empty());
    loop
        invariant
            stream_ok(tm),
            tm == toks_m(ts@),
            i <= l < ts@.len(),
            file_items(tm, i as int, Seq::empty()) == file_items(tm, l as int, items_m(items@)),
        decreases ts@.len() - l,
    {
        proof {
            lemma_toks_m(ts@, l as int);
        }
        let k = ts[l].kind;
        if k == TokenKind::Eof || k == TokenKind::Endif {
            return Ok(items);
        }
        let (it, m) = item_at(ts, l)?;
        proof {
            lemma_items_m_push(items@, it);
        }
        items.push(it);
        l = m;
    }
}

/// A position in a token stream that ends with a single `Eof`.
pub struct Cursor<'a> {
    tokens: Vec<Token<'a>>,
    pos: usize,
}

impl<'a> Cursor<'a> {
    #[verifier::type_invariant]
    spec fn inv(&self) -> bool {
        &&& stream_ok(toks_m(self.tokens@))
        &&& self.pos < self.tokens@.len()
    }

    /// The tokens, in the model's terms.
    pub closed spec fn tokens_m(&self) -> Seq<TokM> {
        toks_m(self.tokens@)
    }

    /// The index of the current token.
    pub closed spec fn pos_m(&self) -> int {
        self.pos as int
    }

    /// A cursor at the first of `tokens`, a stream as [`lex_header`] delivers it.
    pub fn new(tokens: Vec<Token<'a>>) -> (r: Self)
        requires
            stream_ok(toks_m(tokens@)),
        ensures
            r.tokens_m() == toks_m(tokens@),
            r.pos_m() == 0,
    {
        Cursor { tokens, pos: 0 }
    }
}

/// Parses a single header item at the cursor. Public so that the def parser
/// can read file-local declarations on the shared token stream.
pub fn parse_item_on_cursor(cursor: &mut Cursor<'_>) -> (r: Result<HeaderItem, ParseError<TextParseErrorKind>>)
    ensures
        final(cursor).tokens_m() == old(cursor).tokens_m(),
        match item_at_m(old(cursor).tokens_m(), old(cursor).pos_m()) {
            Ok((m, j)) => r matches Ok(it) && item_m(it) == m && final(cursor).pos_m() == j,
            Err(e) => r matches Err(x) && err_matches(x, e) && final(cursor).pos_m() == old(cursor).pos_m(),
        },
{
    proof {
        use_type_invariant(&*cursor);
    }
    match item_at(cursor.tokens.as_slice(), cursor.pos) {
        Ok((it, k)) => {
            cursor.pos = k;
            Ok(it)
        },
        Err(e) => Err(e),
    }
}

/// A lex error as a parse error: its offset and kind.
pub fn lex_error_to_parse_error(e: super::lexer::LexError) -> (r: (usize, TextParseErrorKind))
    ensures
        r.0 == e.span.start,
        err_m(r.1) == lex_err_m(e.kind),
{
    let kind = match e.kind {
        LexErrorKind::UnterminatedString => TextParseErrorKind::UnterminatedString,
        LexErrorKind::UnterminatedBlockComment => TextParseErrorKind::UnterminatedBlockComment,
        LexErrorKind::UnexpectedChar(c) => TextParseErrorKind::UnexpectedChar(c),
    };
    (e.span.start, kind)
}

/// The standalone header-file parser.
pub struct HeaderParser<'a> {
    cursor: Cursor<'a>,
}

proof fn lemma_stream_of_lex(b: Seq<u8>, v: Seq<Token>, ts: Seq<TokSpan>)
    requires
        v.len() == ts.len(),
        forall|i: int|
            0 <= i < ts.len() ==> super::lexer::token_view(#[trigger] v[i]) == ts[i]
                && v[i].source.spec_bytes() == b.subrange(ts[i].1, ts[i].2),
        ts.len() >= 1,
        ts.last().0 == TokenKind::Eof,
        forall|i: int| 0 <= i < ts.len() - 1 ==> (#[trigger] ts[i]).0 != TokenKind::Eof,
    ensures
        toks_m(v) == spans_m(b, ts),
        stream_ok(toks_m(v)),
{
    assert(toks_m(v) =~= spans_m(b, ts));
    let m = toks_m(v);
    assert(m.last() == m[m.len() - 1]);
    assert(ts.last() == ts[ts.len() - 1]);
    assert forall|i: int| 0 <= i < m.len() - 1 implies (#[trigger] m[i]).0 != TokenKind::Eof by {
        assert(m[i].0 == ts[i].0);
    }
}

impl<'a> HeaderParser<'a> {
    /// The parser's cursor.
    pub closed spec fn cursor_m(&self) -> Cursor<'a> {
        self.cursor
    }

    /// Lexes `input` with the header directives.
    pub fn new(input: &'a str) -> (r: Result<Self, HeaderParseError>)
        ensures
            match lex_spec(input.spec_bytes(), 0, true) {
                Ok(ts) => r matches Ok(p) && p.cursor_m().tokens_m() == spans_m(input.spec_bytes(), ts)
                    && p.cursor_m().pos_m() == 0,
                Err((k, s, _e)) => r matches Err(x) && x.pos == s && x.def_header_pos is None && err_m(x.inner)
                    == lex_err_m(k),
            },
    {
        match lex_header(input) {
            Ok(tokens) => {
                proof {
                    super::lexer::lemma_lex_shape(input.spec_bytes(), 0, true);
                    if let Ok(ts) = lex_spec(input.spec_bytes(), 0, true) {
                        lemma_stream_of_lex(input.spec_bytes(), tokens@, ts);
                    }
                }
                Ok(HeaderParser { cursor: Cursor::new(tokens) })
            },
            Err(e) => {
                let (pos, kind) = lex_error_to_parse_error(e);
                Err(ParseError::new(pos, kind))
            },
        }
    }

    /// Parses the whole file: the prologue skipped, the items up to the end
    /// or an `#endif`, and whatever follows ignored.
    pub fn parse_file(&mut self) -> (r: Result<Header, HeaderParseError>)
        ensures
            final(self).cursor_m().tokens_m() == old(self).cursor_m().tokens_m(),
            match file_items(
                old(self).cursor_m().tokens_m(),
                prologue_end(old(self).cursor_m().tokens_m(), old(self).cursor_m().pos_m()),
                Seq::empty(),
            ) {
                Ok(m) => r matches Ok(h) && items_m(h.items@) == m,
                Err(e) => r matches Err(x) && err_matches(x, e),
            },
    {
        proof {
            use_type_invariant(&self.cursor);
        }
        let ts = self.cursor.tokens.as_slice();
        let start = prologue_at(ts, self.cursor.pos);
        let items = file_items_at(ts, start)?;
        let last = self.cursor.tokens.len() - 1;
        self.cursor.pos = last;
        Ok(Header { items })
    }
}

/// Parses a header file.
pub fn parse_header_file(input: &str) -> (r: Result<Header, HeaderParseError>)
    ensures
        match header_m(input.spec_bytes()) {
            Ok(m) => r matches Ok(h) && items_m(h.items@) == m,
            Err(e) => r matches Err(x) && err_matches(x, e),
        },
{
    let mut parser = HeaderParser::new(input)?;
    parser.parse_file()
}

/// The message of each parse error kind.
pub open spec fn text_err_message(k: TextErrM) -> Seq<char> {
    match k {
        TextErrM::UnexpectedToken(e) => "expected "@ + e,
        TextErrM::InvalidNumber => "invalid number"@,
        TextErrM::UnterminatedEnum => "unterminated enum"@,
        TextErrM::UnterminatedNamespace => "unterminated namespace"@,
        TextErrM::UnterminatedIfDef => "unterminated #ifdef"@,
        TextErrM::UnknownItem => "unknown item"@,
        TextErrM::UnterminatedString => "unterminated string"@,
        TextErrM::UnterminatedBlockComment => "unterminated block comment"@,
        TextErrM::UnexpectedChar(c) => super::lexer::unexpected_char_message(c),
    }
}

impl TextParseErrorKind {
    /// The message describing this error.
    pub fn to_string(&self) -> (r: String)
        ensures
            r@ == text_err_message(err_m(*self)),
    {
        match self {
            TextParseErrorKind::UnexpectedToken { expected } => {
                let mut s = "expected ".to_owned();
                s.append(expected.as_str());
                s
            },
            TextParseErrorKind::InvalidNumber => "invalid number".to_owned(),
            TextParseErrorKind::UnterminatedEnum => "unterminated enum".to_owned(),
            TextParseErrorKind::UnterminatedNamespace => "unterminated namespace".to_owned(),
            TextParseErrorKind::UnterminatedIfDef => "unterminated #ifdef".to_owned(),
            TextParseErrorKind::UnknownItem => "unknown item".to_owned(),
            TextParseErrorKind::UnterminatedString => "unterminated string".to_owned(),
            TextParseErrorKind::UnterminatedBlockComment => "unterminated block comment".to_owned(),
            TextParseErrorKind::UnexpectedChar(c) => super::lexer::LexErrorKind::UnexpectedChar(*c).to_string(),
        }
    }
}

} // verus!
