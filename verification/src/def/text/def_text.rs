//! The text-def grammar: `#definition TYPE NAME [specialises PARENT]` …
//! `#end_definition` blocks of field assignments, method calls and tagged
//! blocks, with the file-local `enum`/`#define` declarations some files carry.
//!
//! The parser walks the tokens of [`lex`]. Its contracts speak of a model
//! ([`file_d`] and the productions under it) over the tokens' kinds, byte
//! offsets and text.

use vstd::prelude::*;
use vstd::string::StringSliceAdditionalSpecFns;

use crate::bytes::str_eq;

use super::base::{ParseError, Span, Spanned};
use super::header::{
    describe, describe_m, item_at, item_at_m, items_m, item_m, lex_err_m, stream_ok, toks_m,
    HeaderItem, ItemM, TextErrM, TextParseErrorKind,
};
use super::lexer::{lex, lex_spec, LexErrorKind, Token, TokenKind, TokSpan};

verus! {

// ── data types ────────────────────────────────────────────────────────────────

#[derive(Debug)]
pub struct DefFile {
    pub definitions: Vec<Spanned<Definition>>,
    /// Each definition's name with its index in `definitions` (the last
    /// definition of a name wins).
    pub by_name: Vec<(String, usize)>,
    /// File-local `enum`/`#define` declarations embedded in the `.def`.
    pub headers: Vec<HeaderItem>,
}

#[derive(Debug)]
pub struct Definition {
    pub is_template: bool,
    pub def_type: String,
    pub name: String,
    pub specializes: Option<String>,
    pub body: Vec<Spanned<Statement>>,
}

#[derive(Debug)]
pub enum Statement {
    Field(Field),
    MethodCall(MethodCall),
    TaggedBlock(TaggedBlock),
}

#[derive(Debug)]
pub struct Field {
    pub path: PropertyPath,
    pub expr: Spanned<Expr>,
}

#[derive(Debug)]
pub struct MethodCall {
    pub object: PropertyPath,
    pub call: Call,
}

#[derive(Debug)]
pub struct TaggedBlock {
    pub tag: String,
    pub body: Vec<Spanned<Statement>>,
}

#[derive(Debug)]
pub struct PropertyPath {
    pub segments: Vec<PathSegment>,
}

#[derive(Debug)]
pub enum PathSegment {
    Field(String),
    Index(Spanned<Expr>),
}

#[derive(Debug)]
pub enum Expr {
    /// A numeric literal, kept as its raw source slice (optional leading `-`,
    /// digits, optional `.frac`, optional trailing `f`); interpretation is
    /// deferred to evaluation. Use [`number_is_float`] to classify the shape.
    Number(String),
    Bool(bool),
    String(String),
    Symbol(String),
    Constructor(Call),
    BitOr(Vec<Spanned<Expr>>),
    Add(Vec<Spanned<Expr>>),
}

#[derive(Debug)]
pub struct Call {
    pub name: String,
    pub arguments: Vec<Spanned<Expr>>,
}

pub type DefParseError = ParseError<DefParseErrorKind>;

#[derive(Debug)]
pub enum DefParseErrorKind {
    UnexpectedToken { expected: String },
    MismatchedTag { opened: String, closed: String },
    UnterminatedString,
    UnterminatedBlockComment,
    UnexpectedChar(char),
}

// ── the model ─────────────────────────────────────────────────────────────────

/// A value with its byte range.
pub struct SpannedD<T> {
    pub start: int,
    pub end: int,
    pub value: T,
}

pub enum ExprD {
    Number(Seq<char>),
    Bool(bool),
    /// The string's UTF-8 bytes.
    Str(Seq<u8>),
    Symbol(Seq<char>),
    Constructor(Seq<char>, Seq<SpannedD<ExprD>>),
    BitOr(Seq<SpannedD<ExprD>>),
    Add(Seq<SpannedD<ExprD>>),
}

pub enum SegD {
    Field(Seq<char>),
    Index(SpannedD<ExprD>),
}

pub enum StmtD {
    Field(Seq<SegD>, SpannedD<ExprD>),
    MethodCall(Seq<SegD>, Seq<char>, Seq<SpannedD<ExprD>>),
    TaggedBlock(Seq<char>, Seq<SpannedD<StmtD>>),
}

pub struct DefD {
    pub is_template: bool,
    pub def_type: Seq<char>,
    pub name: Seq<char>,
    pub specializes: Option<Seq<char>>,
    pub body: Seq<SpannedD<StmtD>>,
}

pub enum DefErrD {
    UnexpectedToken(Seq<char>),
    MismatchedTag(Seq<char>, Seq<char>),
    UnterminatedString,
    UnterminatedBlockComment,
    UnexpectedChar(char),
}

/// A parse error in the model: its offset and kind.
pub type DErr = (int, DefErrD);

/// A token in the model: kind, start, end and text.
pub type TokD = (TokenKind, int, int, Seq<char>);

pub open spec fn tok_d(t: Token) -> TokD {
    (t.kind, t.span.start as int, t.span.end as int, t.source@)
}

pub open spec fn toks_d(ts: Seq<Token>) -> Seq<TokD> {
    ts.map_values(|t: Token| tok_d(t))
}

pub open spec fn kd(ts: Seq<TokD>, i: int) -> TokenKind {
    if 0 <= i < ts.len() {
        ts[i].0
    } else {
        TokenKind::Eof
    }
}

pub open spec fn sd(ts: Seq<TokD>, i: int) -> int {
    if 0 <= i < ts.len() {
        ts[i].1
    } else {
        0
    }
}

pub open spec fn td(ts: Seq<TokD>, i: int) -> Seq<char> {
    if 0 <= i < ts.len() {
        ts[i].3
    } else {
        Seq::empty()
    }
}

/// The end of the token before `i` (of the first token when `i` is 0).
pub open spec fn prev_end_d(ts: Seq<TokD>, i: int) -> int {
    let j = if i > 0 {
        i - 1
    } else {
        0
    };
    if 0 <= j < ts.len() {
        ts[j].2
    } else {
        0
    }
}

/// "`what`, found `k`".
pub open spec fn found_d(what: Seq<char>, k: TokenKind) -> DefErrD {
    DefErrD::UnexpectedToken(what + ", found "@ + describe_m(k))
}

pub open spec fn ident_d(ts: Seq<TokD>, i: int, what: Seq<char>) -> Result<(Seq<char>, int), DErr> {
    if kd(ts, i) == TokenKind::Ident {
        Ok((td(ts, i), i + 1))
    } else {
        Err((sd(ts, i), found_d(what, kd(ts, i))))
    }
}

pub open spec fn expect_d(ts: Seq<TokD>, i: int, k: TokenKind) -> Result<int, DErr> {
    if kd(ts, i) == k {
        Ok(i + 1)
    } else {
        Err((sd(ts, i), found_d(describe_m(k), kd(ts, i))))
    }
}

pub open spec fn skip_semi_d(ts: Seq<TokD>, i: int) -> int {
    if kd(ts, i) == TokenKind::Semi {
        i + 1
    } else {
        i
    }
}

/// The bytes between the quotes of a string token whose text is `s`.
pub open spec fn unquote(s: Seq<char>) -> Seq<u8> {
    let b = vstd::utf8::encode_utf8(s);
    b.subrange(1, b.len() - 1)
}

pub open spec fn expr_d(ts: Seq<TokD>, i: int) -> Result<(SpannedD<ExprD>, int), DErr>
    decreases ts.len() - i, 10int, 0int,
{
    bitor_d(ts, i)
}

/// `add (| add)*`: a lone term, or their or spanning from the first token to
/// the end of the last.
pub open spec fn bitor_d(ts: Seq<TokD>, i: int) -> Result<(SpannedD<ExprD>, int), DErr>
    decreases ts.len() - i, 9int, 1int,
{
    match add_d(ts, i) {
        Ok((first, j)) => if i <= j <= ts.len() {
            match bitor_rest(ts, j, seq![first]) {
                Ok((terms, k)) => Ok(
                    (
                        if terms.len() == 1 {
                            terms[0]
                        } else {
                            SpannedD { start: sd(ts, i), end: prev_end_d(ts, k), value: ExprD::BitOr(terms) }
                        },
                        k,
                    ),
                ),
                Err(x) => Err(x),
            }
        } else {
            Ok((first, j))
        },
        Err(x) => Err(x),
    }
}

pub open spec fn bitor_rest(ts: Seq<TokD>, i: int, acc: Seq<SpannedD<ExprD>>) -> Result<(Seq<SpannedD<ExprD>>, int), DErr>
    decreases ts.len() - i, 9int, 0int,
{
    if !(0 <= i < ts.len()) || kd(ts, i) != TokenKind::Pipe {
        Ok((acc, i))
    } else {
        match add_d(ts, i + 1) {
            Ok((e, j)) => if i < j <= ts.len() {
                bitor_rest(ts, j, acc.push(e))
            } else {
                Ok((acc, i))
            },
            Err(x) => Err(x),
        }
    }
}

/// `leaf (+ leaf)*`.
pub open spec fn add_d(ts: Seq<TokD>, i: int) -> Result<(SpannedD<ExprD>, int), DErr>
    decreases ts.len() - i, 8int, 1int,
{
    match leaf_d(ts, i) {
        Ok((first, j)) => if i <= j <= ts.len() {
            match add_rest(ts, j, seq![first]) {
                Ok((terms, k)) => Ok(
                    (
                        if terms.len() == 1 {
                            terms[0]
                        } else {
                            SpannedD { start: sd(ts, i), end: prev_end_d(ts, k), value: ExprD::Add(terms) }
                        },
                        k,
                    ),
                ),
                Err(x) => Err(x),
            }
        } else {
            Ok((first, j))
        },
        Err(x) => Err(x),
    }
}

pub open spec fn add_rest(ts: Seq<TokD>, i: int, acc: Seq<SpannedD<ExprD>>) -> Result<(Seq<SpannedD<ExprD>>, int), DErr>
    decreases ts.len() - i, 8int, 0int,
{
    if !(0 <= i < ts.len()) || kd(ts, i) != TokenKind::Plus {
        Ok((acc, i))
    } else {
        match leaf_d(ts, i + 1) {
            Ok((e, j)) => if i < j <= ts.len() {
                add_rest(ts, j, acc.push(e))
            } else {
                Ok((acc, i))
            },
            Err(x) => Err(x),
        }
    }
}

/// A string, a number, `TRUE`/`BTRUE`/`FALSE`/`BFALSE`, a constructor call
/// `Name(args)`, or a symbol.
pub open spec fn leaf_d(ts: Seq<TokD>, i: int) -> Result<(SpannedD<ExprD>, int), DErr>
    decreases ts.len() - i, 7int, 0int,
{
    let k = kd(ts, i);
    let t = td(ts, i);
    let one = |v: ExprD| SpannedD { start: sd(ts, i), end: if 0 <= i < ts.len() { ts[i].2 } else { 0 }, value: v };
    if !(0 <= i < ts.len()) {
        Err((sd(ts, i), found_d("expression"@, k)))
    } else if k == TokenKind::Str {
        Ok((one(ExprD::Str(unquote(t))), i + 1))
    } else if k == TokenKind::Number {
        Ok((one(ExprD::Number(t)), i + 1))
    } else if k == TokenKind::Ident {
        if t == "TRUE"@ || t == "BTRUE"@ {
            Ok((one(ExprD::Bool(true)), i + 1))
        } else if t == "FALSE"@ || t == "BFALSE"@ {
            Ok((one(ExprD::Bool(false)), i + 1))
        } else if kd(ts, i + 1) == TokenKind::LParen {
            match call_d(ts, i + 1) {
                Ok((args, j)) => Ok(
                    (
                        SpannedD { start: sd(ts, i), end: prev_end_d(ts, j), value: ExprD::Constructor(t, args) },
                        j,
                    ),
                ),
                Err(x) => Err(x),
            }
        } else {
            Ok((one(ExprD::Symbol(t)), i + 1))
        }
    } else {
        Err((sd(ts, i), found_d("expression"@, k)))
    }
}

/// `( args )` at `i`: the arguments and where the call ends.
pub open spec fn call_d(ts: Seq<TokD>, i: int) -> Result<(Seq<SpannedD<ExprD>>, int), DErr>
    decreases ts.len() - i, 6int, 0int,
{
    match expect_d(ts, i, TokenKind::LParen) {
        Ok(j) => if 0 <= i < j <= ts.len() {
            match args_start(ts, j) {
                Ok((args, k)) => match expect_d(ts, k, TokenKind::RParen) {
                    Ok(m) => Ok((args, m)),
                    Err(x) => Err(x),
                },
                Err(x) => Err(x),
            }
        } else {
            Err((sd(ts, i), found_d(describe_m(TokenKind::LParen), kd(ts, i))))
        },
        Err(x) => Err(x),
    }
}

/// The arguments of a call: none before a `)`, else expressions separated
/// by commas.
pub open spec fn args_start(ts: Seq<TokD>, i: int) -> Result<(Seq<SpannedD<ExprD>>, int), DErr>
    decreases ts.len() - i, 12int, 0int,
{
    if kd(ts, i) == TokenKind::RParen {
        Ok((Seq::empty(), i))
    } else {
        args_rest(ts, i, Seq::empty())
    }
}

pub open spec fn args_rest(ts: Seq<TokD>, i: int, acc: Seq<SpannedD<ExprD>>) -> Result<(Seq<SpannedD<ExprD>>, int), DErr>
    decreases ts.len() - i, 11int, 0int,
{
    match expr_d(ts, i) {
        Ok((e, j)) => if kd(ts, j) == TokenKind::Comma {
            if i < j + 1 <= ts.len() {
                args_rest(ts, j + 1, acc.push(e))
            } else {
                Ok((acc.push(e), j))
            }
        } else {
            Ok((acc.push(e), j))
        },
        Err(x) => Err(x),
    }
}

/// `name (. name | [ expr ])*`.
pub open spec fn path_d(ts: Seq<TokD>, i: int) -> Result<(Seq<SegD>, int), DErr> {
    match ident_d(ts, i, "field name"@) {
        Ok((n, j)) => path_rest(ts, j, seq![SegD::Field(n)]),
        Err(x) => Err(x),
    }
}

pub open spec fn path_rest(ts: Seq<TokD>, i: int, acc: Seq<SegD>) -> Result<(Seq<SegD>, int), DErr>
    decreases ts.len() - i,
{
    if !(0 <= i < ts.len()) {
        Ok((acc, i))
    } else if kd(ts, i) == TokenKind::Dot {
        match ident_d(ts, i + 1, "field name"@) {
            Ok((n, j)) => if i < j <= ts.len() {
                path_rest(ts, j, acc.push(SegD::Field(n)))
            } else {
                Ok((acc, i))
            },
            Err(x) => Err(x),
        }
    } else if kd(ts, i) == TokenKind::LBracket {
        match expr_d(ts, i + 1) {
            Ok((e, j)) => match expect_d(ts, j, TokenKind::RBracket) {
                Ok(k) => if i < k <= ts.len() {
                    path_rest(ts, k, acc.push(SegD::Index(e)))
                } else {
                    Ok((acc, i))
                },
                Err(x) => Err(x),
            },
            Err(x) => Err(x),
        }
    } else {
        Ok((acc, i))
    }
}

/// A directive, a header keyword or the end: what cannot appear in a body.
pub open spec fn body_terminator(k: TokenKind) -> bool {
    k == TokenKind::Definition || k == TokenKind::DefinitionTemplate || k == TokenKind::Define
        || k == TokenKind::Ifdef || k == TokenKind::Ifndef || k == TokenKind::Else || k
        == TokenKind::Endif || k == TokenKind::Pragma || k == TokenKind::Namespace || k
        == TokenKind::Enum || k == TokenKind::Eof
}

/// A statement: a tagged block, a method call `path(args);?`, or a field
/// `path expr;?`.
pub open spec fn stmt_d(ts: Seq<TokD>, i: int) -> Result<(SpannedD<StmtD>, int), DErr>
    decreases ts.len() - i, 2int,
{
    if !(0 <= i < ts.len()) {
        Err((sd(ts, i), found_d("field name"@, kd(ts, i))))
    } else if kd(ts, i) == TokenKind::Lt && kd(ts, i + 1) != TokenKind::Backslash {
        match tagged_d(ts, i) {
            Ok((tag, body, j)) => Ok(
                (SpannedD { start: sd(ts, i), end: prev_end_d(ts, j), value: StmtD::TaggedBlock(tag, body) }, j),
            ),
            Err(x) => Err(x),
        }
    } else {
        match path_d(ts, i) {
            Ok((segs, j)) => if kd(ts, j) == TokenKind::LParen {
                if segs.len() > 0 && segs.last() is Field {
                    match call_d(ts, j) {
                        Ok((args, k)) => {
                            let m = skip_semi_d(ts, k);
                            Ok(
                                (
                                    SpannedD {
                                        start: sd(ts, i),
                                        end: prev_end_d(ts, m),
                                        value: StmtD::MethodCall(segs.drop_last(), segs.last()->Field_0, args),
                                    },
                                    m,
                                ),
                            )
                        },
                        Err(x) => Err(x),
                    }
                } else {
                    Err((sd(ts, j), DefErrD::UnexpectedToken("method name"@)))
                }
            } else {
                match expr_d(ts, j) {
                    Ok((e, k)) => {
                        let m = skip_semi_d(ts, k);
                        Ok((SpannedD { start: sd(ts, i), end: prev_end_d(ts, m), value: StmtD::Field(segs, e) }, m))
                    },
                    Err(x) => Err(x),
                }
            },
            Err(x) => Err(x),
        }
    }
}

/// `< tag >` statements `<\ tag >`: the tag, the statements and where the
/// block ends.
pub open spec fn tagged_d(ts: Seq<TokD>, i: int) -> Result<(Seq<char>, Seq<SpannedD<StmtD>>, int), DErr>
    decreases ts.len() - i, 1int,
{
    match expect_d(ts, i, TokenKind::Lt) {
        Ok(j) => match ident_d(ts, j, "tag name"@) {
            Ok((tag, k)) => match expect_d(ts, k, TokenKind::Gt) {
                Ok(l) => if 0 <= i < l <= ts.len() {
                    tagged_body(ts, l, tag, Seq::empty())
                } else {
                    Err((sd(ts, i), found_d("tag name"@, kd(ts, i))))
                },
                Err(x) => Err(x),
            },
            Err(x) => Err(x),
        },
        Err(x) => Err(x),
    }
}

pub open spec fn tagged_body(ts: Seq<TokD>, i: int, tag: Seq<char>, acc: Seq<SpannedD<StmtD>>) -> Result<
    (Seq<char>, Seq<SpannedD<StmtD>>, int),
    DErr,
>
    decreases ts.len() - i, 3int,
{
    if !(0 <= i < ts.len()) {
        Err((sd(ts, i), DefErrD::UnexpectedToken("<\\"@ + tag + ">"@)))
    } else if kd(ts, i) == TokenKind::Lt && kd(ts, i + 1) == TokenKind::Backslash {
        match ident_d(ts, i + 2, "closing tag name"@) {
            Ok((close, m)) => match expect_d(ts, m, TokenKind::Gt) {
                Ok(n) => if close != tag {
                    Err((prev_end_d(ts, n), DefErrD::MismatchedTag(tag, close)))
                } else {
                    Ok((tag, acc, n))
                },
                Err(x) => Err(x),
            },
            Err(x) => Err(x),
        }
    } else if body_terminator(kd(ts, i)) || kd(ts, i) == TokenKind::EndDefinition {
        Err((sd(ts, i), DefErrD::UnexpectedToken("<\\"@ + tag + ">"@)))
    } else {
        match stmt_d(ts, i) {
            Ok((st, j)) => if i < j <= ts.len() {
                tagged_body(ts, j, tag, acc.push(st))
            } else {
                Ok((tag, acc, i))
            },
            Err(x) => Err(x),
        }
    }
}

/// The statements of a definition body from `i`, up to `#end_definition`
/// (and a `;` after it): the statements, the end offset and the next token.
pub open spec fn def_body(ts: Seq<TokD>, i: int, acc: Seq<SpannedD<StmtD>>) -> Result<
    (Seq<SpannedD<StmtD>>, int, int),
    DErr,
>
    decreases ts.len() - i,
{
    if !(0 <= i < ts.len()) {
        Err((sd(ts, i), DefErrD::UnexpectedToken("#end_definition"@)))
    } else if kd(ts, i) == TokenKind::EndDefinition {
        if kd(ts, i + 1) == TokenKind::Semi {
            Ok((acc, ts[i + 1].2, i + 2))
        } else {
            Ok((acc, ts[i].2, i + 1))
        }
    } else if body_terminator(kd(ts, i)) {
        Err((sd(ts, i), DefErrD::UnexpectedToken("#end_definition"@)))
    } else {
        match stmt_d(ts, i) {
            Ok((st, j)) => if i < j <= ts.len() {
                def_body(ts, j, acc.push(st))
            } else {
                Ok((acc, sd(ts, i), i))
            },
            Err(x) => Err(x),
        }
    }
}

/// `#definition[_template] TYPE NAME [specialises PARENT] body #end_definition`.
pub open spec fn def_d(ts: Seq<TokD>, i: int) -> Result<(SpannedD<DefD>, int), DErr> {
    let k = kd(ts, i);
    if k != TokenKind::Definition && k != TokenKind::DefinitionTemplate {
        Err((sd(ts, i), DefErrD::UnexpectedToken("#definition or #definition_template"@)))
    } else {
        match ident_d(ts, i + 1, "definition type"@) {
            Ok((def_type, j)) => match ident_d(ts, j, "definition name"@) {
                Ok((name, l)) => {
                    let spec_r: Result<(Option<Seq<char>>, int), DErr> = if kd(ts, l) == TokenKind::Ident
                        && td(ts, l) == "specialises"@ {
                        match ident_d(ts, l + 1, "specialised parent"@) {
                            Ok((p, m)) => Ok((Some(p), m)),
                            Err(x) => Err(x),
                        }
                    } else {
                        Ok((None, l))
                    };
                    match spec_r {
                        Ok((specializes, m)) => match def_body(ts, m, Seq::empty()) {
                            Ok((body, end, n)) => Ok(
                                (
                                    SpannedD {
                                        start: sd(ts, i),
                                        end,
                                        value: DefD {
                                            is_template: k == TokenKind::DefinitionTemplate,
                                            def_type,
                                            name,
                                            specializes,
                                            body,
                                        },
                                    },
                                    n,
                                ),
                            ),
                            Err(x) => Err(x),
                        },
                        Err(x) => Err(x),
                    }
                },
                Err(x) => Err(x),
            },
            Err(x) => Err(x),
        }
    }
}

/// A parsed def file in the model.
pub struct FileD {
    pub defs: Seq<SpannedD<DefD>>,
    pub headers: Seq<ItemM>,
}

/// The top level from token `i`: definitions, file-local `enum`/`#define`
/// declarations (read with the header grammar on the same tokens), and any
/// other token skipped.
pub open spec fn file_d(tm: Seq<super::header::TokM>, ts: Seq<TokD>, i: int, acc: FileD) -> Result<FileD, DErr>
    decreases ts.len() - i,
{
    let k = kd(ts, i);
    if !(0 <= i < ts.len()) || k == TokenKind::Eof {
        Ok(acc)
    } else if k == TokenKind::Definition || k == TokenKind::DefinitionTemplate {
        match def_d(ts, i) {
            Ok((d, j)) => if i < j <= ts.len() {
                file_d(tm, ts, j, FileD { defs: acc.defs.push(d), headers: acc.headers })
            } else {
                Ok(acc)
            },
            Err(x) => Err(x),
        }
    } else if k == TokenKind::Enum || k == TokenKind::Define {
        match item_at_m(tm, i) {
            Ok((it, j)) => if i < j <= ts.len() {
                file_d(tm, ts, j, FileD { defs: acc.defs, headers: acc.headers.push(it) })
            } else {
                Ok(acc)
            },
            Err((p, e)) => Err(
                (p, DefErrD::UnexpectedToken("enum or #define declaration: "@ + super::header::text_err_message(e))),
            ),
        }
    } else {
        file_d(tm, ts, i + 1, acc)
    }
}

/// The name index: each definition's name with the index of its last
/// definition, in the order the names first occur.
pub open spec fn names_index(defs: Seq<SpannedD<DefD>>) -> Seq<(Seq<char>, int)>
    decreases defs.len(),
{
    if defs.len() == 0 {
        Seq::empty()
    } else {
        let m = names_index(defs.drop_last());
        let n = defs.last().value.name;
        let idx = defs.len() - 1;
        if exists|i: int| 0 <= i < m.len() && #[trigger] m[i].0 == n {
            let i = choose|i: int| 0 <= i < m.len() && #[trigger] m[i].0 == n;
            m.update(i, (n, idx))
        } else {
            m.push((n, idx))
        }
    }
}

/// The index of the last definition named `n` among `defs`, or -1.
pub open spec fn last_named(defs: Seq<SpannedD<DefD>>, n: Seq<char>) -> int
    decreases defs.len(),
{
    if defs.len() == 0 {
        -1
    } else if defs.last().value.name == n {
        defs.len() - 1
    } else {
        last_named(defs.drop_last(), n)
    }
}

/// The name index of a def file holds each name once, with the index of the
/// last definition of that name, and every definition's name is in it.
pub proof fn lemma_names_index_last(defs: Seq<SpannedD<DefD>>)
    ensures
        forall|a: int, b: int|
            0 <= a < b < names_index(defs).len() ==> (#[trigger] names_index(defs)[a]).0
                != (#[trigger] names_index(defs)[b]).0,
        forall|k: int|
            0 <= k < names_index(defs).len() ==> (#[trigger] names_index(defs)[k]).1 == last_named(
                defs,
                names_index(defs)[k].0,
            ) && names_index(defs)[k].1 >= 0,
        forall|i: int|
            0 <= i < defs.len() ==> exists|k: int|
                0 <= k < names_index(defs).len() && (#[trigger] names_index(defs)[k]).0 == (#[trigger] defs[i]).value.name,
    decreases defs.len(),
{
    if defs.len() > 0 {
        let d = defs.drop_last();
        lemma_names_index_last(d);
        let m = names_index(d);
        let n = defs.last().value.name;
        let idx = names_index(defs);
        if exists|i: int| 0 <= i < m.len() && #[trigger] m[i].0 == n {
            let j = choose|i: int| 0 <= i < m.len() && #[trigger] m[i].0 == n;
            assert(idx == m.update(j, (n, defs.len() - 1)));
            assert forall|k: int| 0 <= k < idx.len() implies (#[trigger] idx[k]).1 == last_named(defs, idx[k].0)
                && idx[k].1 >= 0 by {
                if k != j {
                    assert(idx[k] == m[k]);
                    assert(m[k].0 != n);
                }
            }
            assert forall|i: int| 0 <= i < defs.len() implies exists|k: int|
                0 <= k < idx.len() && (#[trigger] idx[k]).0 == (#[trigger] defs[i]).value.name by {
                if i == defs.len() - 1 {
                    assert(idx[j].0 == defs[i].value.name);
                } else {
                    assert(d[i] == defs[i]);
                    let k = choose|k: int| 0 <= k < m.len() && (#[trigger] m[k]).0 == (#[trigger] d[i]).value.name;
                    if k == j {
                        assert(idx[j].0 == defs[i].value.name);
                    } else {
                        assert(idx[k] == m[k]);
                    }
                }
            }
        } else {
            assert(idx == m.push((n, defs.len() - 1)));
            assert forall|k: int| 0 <= k < idx.len() implies (#[trigger] idx[k]).1 == last_named(defs, idx[k].0)
                && idx[k].1 >= 0 by {
                if k < m.len() {
                    assert(idx[k] == m[k]);
                }
            }
            assert forall|a: int, b: int| 0 <= a < b < idx.len() implies (#[trigger] idx[a]).0 != (#[trigger] idx[b]).0 by {
                if b == m.len() {
                    assert(idx[a] == m[a]);
                } else {
                    assert(idx[a] == m[a] && idx[b] == m[b]);
                }
            }
            assert forall|i: int| 0 <= i < defs.len() implies exists|k: int|
                0 <= k < idx.len() && (#[trigger] idx[k]).0 == (#[trigger] defs[i]).value.name by {
                if i == defs.len() - 1 {
                    assert(idx[m.len() as int].0 == defs[i].value.name);
                } else {
                    assert(d[i] == defs[i]);
                    let k = choose|k: int| 0 <= k < m.len() && (#[trigger] m[k]).0 == (#[trigger] d[i]).value.name;
                    assert(idx[k] == m[k]);
                }
            }
        }
    }
}

// ── views ─────────────────────────────────────────────────────────────────────

pub open spec fn expr_v(e: Expr) -> ExprD
    decreases e,
{
    match e {
        Expr::Number(s) => ExprD::Number(s@),
        Expr::Bool(b) => ExprD::Bool(b),
        Expr::String(s) => ExprD::Str(vstd::utf8::encode_utf8(s@)),
        Expr::Symbol(s) => ExprD::Symbol(s@),
        Expr::Constructor(c) => ExprD::Constructor(c.name@, sexprs_v(c.arguments@)),
        Expr::BitOr(v) => ExprD::BitOr(sexprs_v(v@)),
        Expr::Add(v) => ExprD::Add(sexprs_v(v@)),
    }
}

pub open spec fn sexpr_v(e: Spanned<Expr>) -> SpannedD<ExprD>
    decreases e,
{
    SpannedD { start: e.span.start as int, end: e.span.end as int, value: expr_v(e.value) }
}

pub open spec fn sexprs_v(s: Seq<Spanned<Expr>>) -> Seq<SpannedD<ExprD>>
    decreases s,
{
    if s.len() == 0 {
        Seq::empty()
    } else {
        sexprs_v(s.drop_last()).push(sexpr_v(s.last()))
    }
}

pub open spec fn seg_v(s: PathSegment) -> SegD {
    match s {
        PathSegment::Field(n) => SegD::Field(n@),
        PathSegment::Index(e) => SegD::Index(sexpr_v(e)),
    }
}

pub open spec fn segs_v(s: Seq<PathSegment>) -> Seq<SegD> {
    s.map_values(|x: PathSegment| seg_v(x))
}

pub open spec fn stmt_v(s: Statement) -> StmtD
    decreases s,
{
    match s {
        Statement::Field(f) => StmtD::Field(segs_v(f.path.segments@), sexpr_v(f.expr)),
        Statement::MethodCall(m) => StmtD::MethodCall(segs_v(m.object.segments@), m.call.name@, sexprs_v(m.call.arguments@)),
        Statement::TaggedBlock(t) => StmtD::TaggedBlock(t.tag@, sstmts_v(t.body@)),
    }
}

pub open spec fn sstmt_v(s: Spanned<Statement>) -> SpannedD<StmtD>
    decreases s,
{
    SpannedD { start: s.span.start as int, end: s.span.end as int, value: stmt_v(s.value) }
}

pub open spec fn sstmts_v(s: Seq<Spanned<Statement>>) -> Seq<SpannedD<StmtD>>
    decreases s,
{
    if s.len() == 0 {
        Seq::empty()
    } else {
        sstmts_v(s.drop_last()).push(sstmt_v(s.last()))
    }
}

pub open spec fn def_v(d: Spanned<Definition>) -> SpannedD<DefD> {
    SpannedD {
        start: d.span.start as int,
        end: d.span.end as int,
        value: DefD {
            is_template: d.value.is_template,
            def_type: d.value.def_type@,
            name: d.value.name@,
            specializes: match d.value.specializes {
                Some(p) => Some(p@),
                None => None,
            },
            body: sstmts_v(d.value.body@),
        },
    }
}

pub open spec fn defs_v(s: Seq<Spanned<Definition>>) -> Seq<SpannedD<DefD>> {
    s.map_values(|d: Spanned<Definition>| def_v(d))
}

proof fn lemma_sexprs_push(s: Seq<Spanned<Expr>>, e: Spanned<Expr>)
    ensures
        sexprs_v(s.push(e)) == sexprs_v(s).push(sexpr_v(e)),
{
    assert(s.push(e).drop_last() =~= s);
}

proof fn lemma_sexprs_index(s: Seq<Spanned<Expr>>)
    ensures
        sexprs_v(s).len() == s.len(),
        forall|k: int| 0 <= k < s.len() ==> #[trigger] sexprs_v(s)[k] == sexpr_v(s[k]),
    decreases s.len(),
{
    if s.len() > 0 {
        lemma_sexprs_index(s.drop_last());
        assert forall|k: int| 0 <= k < s.len() implies #[trigger] sexprs_v(s)[k] == sexpr_v(s[k]) by {
            if k < s.len() - 1 {
                assert(s.drop_last()[k] == s[k]);
            }
        }
    }
}

proof fn lemma_sexprs_one(e: Spanned<Expr>)
    ensures
        sexprs_v(seq![e]) == seq![sexpr_v(e)],
{
    lemma_sexprs_push(Seq::empty(), e);
    assert(Seq::<Spanned<Expr>>::empty().push(e) =~= seq![e]);
    assert(Seq::<SpannedD<ExprD>>::empty().push(sexpr_v(e)) =~= seq![sexpr_v(e)]);
}

proof fn lemma_sstmts_push(s: Seq<Spanned<Statement>>, e: Spanned<Statement>)
    ensures
        sstmts_v(s.push(e)) == sstmts_v(s).push(sstmt_v(e)),
{
    assert(s.push(e).drop_last() =~= s);
}

// ── the token stream ──────────────────────────────────────────────────────────

/// Every string token spans its two quotes.
pub open spec fn strs_quoted(ts: Seq<Token>) -> bool {
    forall|i: int|
        0 <= i < ts.len() && (#[trigger] ts[i]).kind == TokenKind::Str ==> {
            let b = ts[i].source.spec_bytes();
            &&& b.len() >= 2
            &&& b[0] == 34
            &&& b[b.len() - 1] == 34
        }
}

/// The streams the def parser reads: as the lexer delivers them.
pub open spec fn def_stream(ts: Seq<Token>) -> bool {
    stream_ok(toks_m(ts)) && strs_quoted(ts)
}

proof fn lemma_tok(ts: Seq<Token>, i: int)
    requires
        0 <= i < ts.len(),
    ensures
        toks_d(ts).len() == ts.len(),
        toks_d(ts)[i] == tok_d(ts[i]),
        kd(toks_d(ts), i) == ts[i].kind,
        sd(toks_d(ts), i) == ts[i].span.start as int,
        td(toks_d(ts), i) == ts[i].source@,
        toks_m(ts)[i].0 == ts[i].kind,
        prev_end_d(toks_d(ts), i + 1) == ts[i].span.end as int,
{
}

proof fn lemma_not_last_d(ts: Seq<Token>, i: int)
    requires
        def_stream(ts),
        0 <= i < ts.len(),
        ts[i].kind != TokenKind::Eof,
    ensures
        i + 1 < ts.len(),
{
    let m = toks_m(ts);
    assert(m.last() == m[m.len() - 1]);
    assert(m[i].0 == ts[i].kind);
}

// ── the parser ────────────────────────────────────────────────────────────────

pub open spec fn derr_v(k: DefParseErrorKind) -> DefErrD {
    match k {
        DefParseErrorKind::UnexpectedToken { expected } => DefErrD::UnexpectedToken(expected@),
        DefParseErrorKind::MismatchedTag { opened, closed } => DefErrD::MismatchedTag(opened@, closed@),
        DefParseErrorKind::UnterminatedString => DefErrD::UnterminatedString,
        DefParseErrorKind::UnterminatedBlockComment => DefErrD::UnterminatedBlockComment,
        DefParseErrorKind::UnexpectedChar(c) => DefErrD::UnexpectedChar(c),
    }
}

/// The error `r` is the model's `e`.
/// On a lone end of input at `n`, the stream that a lex error leaves, an
/// expression is refused at `n`: the end of input is found where an
/// expression was expected.
pub proof fn lemma_expr_on_lone_eof(n: int)
    ensures
        expr_d(seq![(TokenKind::Eof, n, n, Seq::<char>::empty())], 0) == Err::<(SpannedD<ExprD>, int), DErr>(
            (n, found_d("expression"@, TokenKind::Eof)),
        ),
{
}

pub open spec fn derr_matches(r: DefParseError, e: DErr) -> bool {
    r.pos == e.0 && derr_v(r.inner) == e.1
}

fn unexpected(at: usize, expected: String) -> (r: DefParseError)
    ensures
        r.pos == at,
        derr_v(r.inner) == DefErrD::UnexpectedToken(expected@),
{
    ParseError::new(at, DefParseErrorKind::UnexpectedToken { expected })
}

fn found_msg(what: &str, k: TokenKind) -> (r: String)
    ensures
        r@ == what@ + ", found "@ + describe_m(k),
{
    let mut s = what.to_owned();
    s.append(", found ");
    s.append(describe(k));
    s
}

fn prev_end(ts: &[Token], k: usize) -> (r: usize)
    requires
        k <= ts@.len(),
        ts@.len() >= 1,
    ensures
        r == prev_end_d(toks_d(ts@), k as int),
{
    let j = if k > 0 {
        k - 1
    } else {
        0
    };
    ts[j].span.end
}

fn ident_at_d(ts: &[Token], i: usize, what: &str) -> (r: Result<(String, usize), DefParseError>)
    requires
        def_stream(ts@),
        i < ts@.len(),
    ensures
        match ident_d(toks_d(ts@), i as int, what@) {
            Ok((n, j)) => r matches Ok((s, k)) && s@ == n && k == j && k < ts@.len(),
            Err(e) => r matches Err(x) && derr_matches(x, e),
        },
{
    proof {
        lemma_tok(ts@, i as int);
    }
    if ts[i].kind == TokenKind::Ident {
        proof {
            lemma_not_last_d(ts@, i as int);
        }
        Ok((ts[i].source.to_owned(), i + 1))
    } else {
        Err(unexpected(ts[i].span.start, found_msg(what, ts[i].kind)))
    }
}

fn expect_at_d(ts: &[Token], i: usize, k: TokenKind) -> (r: Result<usize, DefParseError>)
    requires
        def_stream(ts@),
        i < ts@.len(),
        k != TokenKind::Eof,
    ensures
        match expect_d(toks_d(ts@), i as int, k) {
            Ok(j) => r matches Ok(m) && m == j && j < ts@.len(),
            Err(e) => r matches Err(x) && derr_matches(x, e),
        },
{
    proof {
        lemma_tok(ts@, i as int);
    }
    if ts[i].kind == k {
        proof {
            lemma_not_last_d(ts@, i as int);
        }
        Ok(i + 1)
    } else {
        Err(unexpected(ts[i].span.start, found_msg(describe(k), ts[i].kind)))
    }
}

/// The text of a string token without its quotes.
fn unquote_exec(t: &str) -> (r: String)
    requires
        t.spec_bytes().len() >= 2,
        t.spec_bytes()[0] == 34,
        t.spec_bytes()[t.spec_bytes().len() - 1] == 34,
    ensures
        vstd::utf8::encode_utf8(r@) == unquote(t@),
{
    let ghost b = t.spec_bytes();
    let n = t.as_bytes().len();
    proof {
        vstd::utf8::encode_utf8_valid_utf8(t@);
        super::lexer::lemma_boundary_after_ascii(b, 0);
        vstd::utf8::is_char_boundary_iff_not_is_continuation_byte(b, n - 1);
    }
    let inner = super::lexer::slice_at(t, 1, n - 1);
    inner.to_owned()
}

fn expr_at(ts: &[Token], i: usize) -> (r: Result<(Spanned<Expr>, usize), DefParseError>)
    requires
        def_stream(ts@),
        i < ts@.len(),
    ensures
        match expr_d(toks_d(ts@), i as int) {
            Ok((m, j)) => r matches Ok((e, k)) && sexpr_v(e) == m && k == j && i < k < ts@.len(),
            Err(x) => r matches Err(y) && derr_matches(y, x),
        },
    decreases ts@.len() - i, 10int, 0int,
{
    bitor_at(ts, i)
}

fn bitor_at(ts: &[Token], i: usize) -> (r: Result<(Spanned<Expr>, usize), DefParseError>)
    requires
        def_stream(ts@),
        i < ts@.len(),
    ensures
        match bitor_d(toks_d(ts@), i as int) {
            Ok((m, j)) => r matches Ok((e, k)) && sexpr_v(e) == m && k == j && i < k < ts@.len(),
            Err(x) => r matches Err(y) && derr_matches(y, x),
        },
    decreases ts@.len() - i, 9int, 1int,
{
    let ghost tdd = toks_d(ts@);
    proof {
        lemma_tok(ts@, i as int);
    }
    let start = ts[i].span.start;
    let (first, mut j) = add_at(ts, i)?;
    let ghost j0 = j as int;
    let ghost fv = sexpr_v(first);
    let mut terms: Vec<Spanned<Expr>> = Vec::new();
    terms.push(first);
    proof {
        lemma_sexprs_one(first);
        assert(terms@ =~= seq![first]);
    }
    while ts[j].kind == TokenKind::Pipe
        invariant
            def_stream(ts@),
            tdd == toks_d(ts@),
            i < j0 <= j < ts@.len(),
            terms@.len() >= 1,
            bitor_rest(tdd, j0, seq![fv]) == bitor_rest(tdd, j as int, sexprs_v(terms@)),
            add_d(tdd, i as int) == Ok::<(SpannedD<ExprD>, int), DErr>((fv, j0)),
        decreases ts@.len() - j,
    {
        proof {
            lemma_tok(ts@, j as int);
            lemma_not_last_d(ts@, j as int);
        }
        let (e, k) = add_at(ts, j + 1)?;
        proof {
            lemma_sexprs_push(terms@, e);
        }
        terms.push(e);
        j = k;
    }
    proof {
        lemma_tok(ts@, j as int);
        lemma_sexprs_index(terms@);
    }
    if terms.len() == 1 {
        let mut terms = terms;
        let ghost t0 = terms@;
        let e = terms.pop().unwrap();
        assert(e == t0[0]);
        Ok((e, j))
    } else {
        let end = prev_end(ts, j);
        Ok((Spanned { span: Span { start, end }, value: Expr::BitOr(terms) }, j))
    }
}

fn add_at(ts: &[Token], i: usize) -> (r: Result<(Spanned<Expr>, usize), DefParseError>)
    requires
        def_stream(ts@),
        i < ts@.len(),
    ensures
        match add_d(toks_d(ts@), i as int) {
            Ok((m, j)) => r matches Ok((e, k)) && sexpr_v(e) == m && k == j && i < k < ts@.len(),
            Err(x) => r matches Err(y) && derr_matches(y, x),
        },
    decreases ts@.len() - i, 8int, 1int,
{
    let ghost tdd = toks_d(ts@);
    proof {
        lemma_tok(ts@, i as int);
    }
    let start = ts[i].span.start;
    let (first, mut j) = leaf_at(ts, i)?;
    let ghost j0 = j as int;
    let ghost fv = sexpr_v(first);
    let mut terms: Vec<Spanned<Expr>> = Vec::new();
    terms.push(first);
    proof {
        lemma_sexprs_one(first);
        assert(terms@ =~= seq![first]);
    }
    while ts[j].kind == TokenKind::Plus
        invariant
            def_stream(ts@),
            tdd == toks_d(ts@),
            i < j0 <= j < ts@.len(),
            terms@.len() >= 1,
            add_rest(tdd, j0, seq![fv]) == add_rest(tdd, j as int, sexprs_v(terms@)),
            leaf_d(tdd, i as int) == Ok::<(SpannedD<ExprD>, int), DErr>((fv, j0)),
        decreases ts@.len() - j,
    {
        proof {
            lemma_tok(ts@, j as int);
            lemma_not_last_d(ts@, j as int);
        }
        let (e, k) = leaf_at(ts, j + 1)?;
        proof {
            lemma_sexprs_push(terms@, e);
        }
        terms.push(e);
        j = k;
    }
    proof {
        lemma_tok(ts@, j as int);
        lemma_sexprs_index(terms@);
    }
    if terms.len() == 1 {
        let mut terms = terms;
        let ghost t0 = terms@;
        let e = terms.pop().unwrap();
        assert(e == t0[0]);
        Ok((e, j))
    } else {
        let end = prev_end(ts, j);
        Ok((Spanned { span: Span { start, end }, value: Expr::Add(terms) }, j))
    }
}

fn leaf_at(ts: &[Token], i: usize) -> (r: Result<(Spanned<Expr>, usize), DefParseError>)
    requires
        def_stream(ts@),
        i < ts@.len(),
    ensures
        match leaf_d(toks_d(ts@), i as int) {
            Ok((m, j)) => r matches Ok((e, k)) && sexpr_v(e) == m && k == j && i < k < ts@.len(),
            Err(x) => r matches Err(y) && derr_matches(y, x),
        },
    decreases ts@.len() - i, 7int, 0int,
{
    proof {
        lemma_tok(ts@, i as int);
    }
    let t = ts[i];
    let span = t.span;
    match t.kind {
        TokenKind::Str => {
            proof {
                lemma_not_last_d(ts@, i as int);
            }
            let s = unquote_exec(t.source);
            Ok((Spanned { span, value: Expr::String(s) }, i + 1))
        },
        TokenKind::Number => {
            proof {
                lemma_not_last_d(ts@, i as int);
            }
            Ok((Spanned { span, value: Expr::Number(t.source.to_owned()) }, i + 1))
        },
        TokenKind::Ident => {
            proof {
                lemma_not_last_d(ts@, i as int);
                lemma_tok(ts@, i + 1);
            }
            if str_eq(t.source, "TRUE") || str_eq(t.source, "BTRUE") {
                Ok((Spanned { span, value: Expr::Bool(true) }, i + 1))
            } else if str_eq(t.source, "FALSE") || str_eq(t.source, "BFALSE") {
                Ok((Spanned { span, value: Expr::Bool(false) }, i + 1))
            } else if ts[i + 1].kind == TokenKind::LParen {
                let (arguments, j) = call_at(ts, i + 1)?;
                let end = prev_end(ts, j);
                let call = Call { name: t.source.to_owned(), arguments };
                Ok((Spanned { span: Span { start: span.start, end }, value: Expr::Constructor(call) }, j))
            } else {
                Ok((Spanned { span, value: Expr::Symbol(t.source.to_owned()) }, i + 1))
            }
        },
        k => Err(unexpected(span.start, found_msg("expression", k))),
    }
}

/// `( args )` at token `i`.
fn call_at(ts: &[Token], i: usize) -> (r: Result<(Vec<Spanned<Expr>>, usize), DefParseError>)
    requires
        def_stream(ts@),
        i < ts@.len(),
    ensures
        match call_d(toks_d(ts@), i as int) {
            Ok((m, j)) => r matches Ok((v, k)) && sexprs_v(v@) == m && k == j && i < k < ts@.len(),
            Err(x) => r matches Err(y) && derr_matches(y, x),
        },
    decreases ts@.len() - i, 6int, 0int,
{
    let ghost tdd = toks_d(ts@);
    let j = expect_at_d(ts, i, TokenKind::LParen)?;
    assert(expect_d(tdd, i as int, TokenKind::LParen) is Ok);
    assert(j == i + 1);
    let (args, k) = args_at(ts, j)?;
    let m = expect_at_d(ts, k, TokenKind::RParen)?;
    Ok((args, m))
}

/// The arguments of a call, from token `i`.
fn args_at(ts: &[Token], i: usize) -> (r: Result<(Vec<Spanned<Expr>>, usize), DefParseError>)
    requires
        def_stream(ts@),
        i < ts@.len(),
    ensures
        match args_start(toks_d(ts@), i as int) {
            Ok((m, j)) => r matches Ok((v, k)) && sexprs_v(v@) == m && k == j && i <= k < ts@.len(),
            Err(x) => r matches Err(y) && derr_matches(y, x),
        },
    decreases ts@.len() - i, 12int, 0int,
{
    let ghost tdd = toks_d(ts@);
    proof {
        lemma_tok(ts@, i as int);
    }
    let mut args: Vec<Spanned<Expr>> = Vec::new();
    assert(sexprs_v(args@) =~= Seq::<SpannedD<ExprD>>::empty());
    if ts[i].kind == TokenKind::RParen {
        return Ok((args, i));
    }
    let mut l = i;
    loop
        invariant
            def_stream(ts@),
            tdd == toks_d(ts@),
            i <= l < ts@.len(),
            args_start(tdd, i as int) == args_rest(tdd, l as int, sexprs_v(args@)),
        decreases ts@.len() - l,
    {
        let (e, j) = expr_at(ts, l)?;
        proof {
            lemma_sexprs_push(args@, e);
            lemma_tok(ts@, j as int);
        }
        args.push(e);
        if ts[j].kind == TokenKind::Comma {
            proof {
                lemma_not_last_d(ts@, j as int);
            }
            l = j + 1;
        } else {
            return Ok((args, j));
        }
    }
}

proof fn lemma_segs_push(s: Seq<PathSegment>, x: PathSegment)
    ensures
        segs_v(s.push(x)) == segs_v(s).push(seg_v(x)),
{
    assert(segs_v(s.push(x)) =~= segs_v(s).push(seg_v(x)));
}

fn path_at(ts: &[Token], i: usize) -> (r: Result<(PropertyPath, usize), DefParseError>)
    requires
        def_stream(ts@),
        i < ts@.len(),
    ensures
        match path_d(toks_d(ts@), i as int) {
            Ok((m, j)) => r matches Ok((p, k)) && segs_v(p.segments@) == m && k == j && i < k < ts@.len(),
            Err(x) => r matches Err(y) && derr_matches(y, x),
        },
{
    let ghost tdd = toks_d(ts@);
    let (n, mut l) = ident_at_d(ts, i, "field name")?;
    let mut segments: Vec<PathSegment> = Vec::new();
    segments.push(PathSegment::Field(n));
    let ghost j0 = l as int;
    proof {
        assert(segs_v(segments@) =~= seq![SegD::Field(n@)]);
    }
    loop
        invariant
            def_stream(ts@),
            tdd == toks_d(ts@),
            i < j0 <= l < ts@.len(),
            path_d(tdd, i as int) == path_rest(tdd, l as int, segs_v(segments@)),
        decreases ts@.len() - l,
    {
        proof {
            lemma_tok(ts@, l as int);
        }
        if ts[l].kind == TokenKind::Dot {
            proof {
                lemma_not_last_d(ts@, l as int);
            }
            let (n, k) = ident_at_d(ts, l + 1, "field name")?;
            proof {
                lemma_segs_push(segments@, PathSegment::Field(n));
            }
            segments.push(PathSegment::Field(n));
            l = k;
        } else if ts[l].kind == TokenKind::LBracket {
            proof {
                lemma_not_last_d(ts@, l as int);
            }
            let (e, k) = expr_at(ts, l + 1)?;
            let m = expect_at_d(ts, k, TokenKind::RBracket)?;
            proof {
                lemma_segs_push(segments@, PathSegment::Index(e));
            }
            segments.push(PathSegment::Index(e));
            l = m;
        } else {
            return Ok((PropertyPath { segments }, l));
        }
    }
}

fn is_body_terminator(k: TokenKind) -> (r: bool)
    ensures
        r == body_terminator(k),
{
    match k {
        TokenKind::Definition | TokenKind::DefinitionTemplate | TokenKind::Define | TokenKind::Ifdef
        | TokenKind::Ifndef | TokenKind::Else | TokenKind::Endif | TokenKind::Pragma
        | TokenKind::Namespace | TokenKind::Enum | TokenKind::Eof => true,
        _ => false,
    }
}

fn stmt_at(ts: &[Token], i: usize) -> (r: Result<(Spanned<Statement>, usize), DefParseError>)
    requires
        def_stream(ts@),
        i < ts@.len(),
    ensures
        match stmt_d(toks_d(ts@), i as int) {
            Ok((m, j)) => r matches Ok((st, k)) && sstmt_v(st) == m && k == j && i < k < ts@.len(),
            Err(x) => r matches Err(y) && derr_matches(y, x),
        },
    decreases ts@.len() - i, 2int,
{
    let ghost tdd = toks_d(ts@);
    proof {
        lemma_tok(ts@, i as int);
    }
    let start = ts[i].span.start;
    if ts[i].kind == TokenKind::Lt {
        proof {
            lemma_not_last_d(ts@, i as int);
            lemma_tok(ts@, i + 1);
        }
        if ts[i + 1].kind != TokenKind::Backslash {
            let (tag, body, j) = tagged_at(ts, i)?;
            let end = prev_end(ts, j);
            return Ok((Spanned { span: Span { start, end }, value: Statement::TaggedBlock(TaggedBlock { tag, body }) }, j));
        }
    }
    let (path, j) = path_at(ts, i)?;
    proof {
        lemma_tok(ts@, j as int);
    }
    if ts[j].kind == TokenKind::LParen {
        let mut segments = path.segments;
        let ghost all = segments@;
        proof {
            if all.len() > 0 {
                assert(segs_v(all).last() == seg_v(all.last()));
                assert(segs_v(all).drop_last() =~= segs_v(all.drop_last()));
            }
        }
        let method = match segments.pop() {
            Some(PathSegment::Field(method)) => method,
            _ => {
                return Err(unexpected(ts[j].span.start, "method name".to_owned()));
            },
        };
        let (arguments, k) = call_at(ts, j)?;
        proof {
            lemma_tok(ts@, k as int);
        }
        let m = if ts[k].kind == TokenKind::Semi {
            proof {
                lemma_not_last_d(ts@, k as int);
            }
            k + 1
        } else {
            k
        };
        let end = prev_end(ts, m);
        let mc = MethodCall { object: PropertyPath { segments }, call: Call { name: method, arguments } };
        return Ok((Spanned { span: Span { start, end }, value: Statement::MethodCall(mc) }, m));
    }
    let (expr, k) = expr_at(ts, j)?;
    proof {
        lemma_tok(ts@, k as int);
    }
    let m = if ts[k].kind == TokenKind::Semi {
        proof {
            lemma_not_last_d(ts@, k as int);
        }
        k + 1
    } else {
        k
    };
    let end = prev_end(ts, m);
    Ok((Spanned { span: Span { start, end }, value: Statement::Field(Field { path, expr }) }, m))
}

/// `"<\\" + tag + ">"`.
fn close_tag_text(tag: &str) -> (r: String)
    ensures
        r@ == "<\\"@ + tag@ + ">"@,
{
    let mut s = "<\\".to_owned();
    s.append(tag);
    s.append(">");
    s
}

fn tagged_at(ts: &[Token], i: usize) -> (r: Result<(String, Vec<Spanned<Statement>>, usize), DefParseError>)
    requires
        def_stream(ts@),
        i < ts@.len(),
    ensures
        match tagged_d(toks_d(ts@), i as int) {
            Ok((t, b, j)) => r matches Ok((tag, body, k)) && tag@ == t && sstmts_v(body@) == b && k == j && i < k < ts@.len(),
            Err(x) => r matches Err(y) && derr_matches(y, x),
        },
    decreases ts@.len() - i, 1int,
{
    let ghost tdd = toks_d(ts@);
    let j = expect_at_d(ts, i, TokenKind::Lt)?;
    assert(expect_d(tdd, i as int, TokenKind::Lt) is Ok);
    assert(j == i + 1);
    let (tag, k) = ident_at_d(ts, j, "tag name")?;
    assert(ident_d(tdd, j as int, "tag name"@) is Ok);
    assert(k == j + 1);
    let l0 = expect_at_d(ts, k, TokenKind::Gt)?;
    assert(expect_d(tdd, k as int, TokenKind::Gt) is Ok);
    let mut body: Vec<Spanned<Statement>> = Vec::new();
    let mut l = l0;
    assert(sstmts_v(body@) =~= Seq::<SpannedD<StmtD>>::empty());
    loop
        invariant
            def_stream(ts@),
            tdd == toks_d(ts@),
            i < l0 <= l < ts@.len(),
            tagged_d(tdd, i as int) == tagged_body(tdd, l as int, tag@, sstmts_v(body@)),
        decreases ts@.len() - l,
    {
        proof {
            lemma_tok(ts@, l as int);
        }
        let tk = ts[l].kind;
        if tk == TokenKind::Lt {
            proof {
                lemma_not_last_d(ts@, l as int);
                lemma_tok(ts@, l + 1);
            }
            if ts[l + 1].kind == TokenKind::Backslash {
                proof {
                    lemma_not_last_d(ts@, l + 1);
                }
                let (close, m) = ident_at_d(ts, l + 2, "closing tag name")?;
                let n = expect_at_d(ts, m, TokenKind::Gt)?;
                if !str_eq(close.as_str(), tag.as_str()) {
                    let at = prev_end(ts, n);
                    return Err(ParseError::new(at, DefParseErrorKind::MismatchedTag { opened: tag, closed: close }));
                }
                return Ok((tag, body, n));
            }
        }
        if is_body_terminator(tk) || tk == TokenKind::EndDefinition {
            let msg = close_tag_text(tag.as_str());
            return Err(unexpected(ts[l].span.start, msg));
        }
        let (st, m) = stmt_at(ts, l)?;
        proof {
            lemma_sstmts_push(body@, st);
        }
        body.push(st);
        l = m;
    }
}

fn def_at(ts: &[Token], i: usize) -> (r: Result<(Spanned<Definition>, usize), DefParseError>)
    requires
        def_stream(ts@),
        i < ts@.len(),
    ensures
        match def_d(toks_d(ts@), i as int) {
            Ok((m, j)) => r matches Ok((d, k)) && def_v(d) == m && k == j && i < k < ts@.len(),
            Err(x) => r matches Err(y) && derr_matches(y, x),
        },
{
    let ghost tdd = toks_d(ts@);
    proof {
        lemma_tok(ts@, i as int);
    }
    let start = ts[i].span.start;
    let is_template = match ts[i].kind {
        TokenKind::DefinitionTemplate => true,
        TokenKind::Definition => false,
        _ => {
            return Err(unexpected(start, "#definition or #definition_template".to_owned()));
        },
    };
    proof {
        lemma_not_last_d(ts@, i as int);
    }
    let (def_type, j) = ident_at_d(ts, i + 1, "definition type")?;
    let (name, l) = ident_at_d(ts, j, "definition name")?;
    proof {
        lemma_tok(ts@, l as int);
    }
    let (specializes, m) = if ts[l].kind == TokenKind::Ident && str_eq(ts[l].source, "specialises") {
        proof {
            lemma_not_last_d(ts@, l as int);
        }
        let (p, m) = ident_at_d(ts, l + 1, "specialised parent")?;
        (Some(p), m)
    } else {
        (None, l)
    };
    let (body, end, next) = def_body_at(ts, m)?;
    let d = Definition { is_template, def_type, name, specializes, body };
    Ok((Spanned { span: Span { start, end }, value: d }, next))
}

fn def_body_at(ts: &[Token], m: usize) -> (r: Result<(Vec<Spanned<Statement>>, usize, usize), DefParseError>)
    requires
        def_stream(ts@),
        m < ts@.len(),
    ensures
        match def_body(toks_d(ts@), m as int, Seq::empty()) {
            Ok((b, e, j)) => r matches Ok((body, end, k)) && sstmts_v(body@) == b && end == e && k == j
                && m < k < ts@.len(),
            Err(x) => r matches Err(y) && derr_matches(y, x),
        },
{
    let ghost tdd = toks_d(ts@);
    let mut body: Vec<Spanned<Statement>> = Vec::new();
    let mut k = m;
    assert(sstmts_v(body@) =~= Seq::<SpannedD<StmtD>>::empty());
    loop
        invariant
            def_stream(ts@),
            tdd == toks_d(ts@),
            m <= k < ts@.len(),
            def_body(tdd, m as int, Seq::empty()) == def_body(tdd, k as int, sstmts_v(body@)),
        decreases ts@.len() - k,
    {
        proof {
            lemma_tok(ts@, k as int);
        }
        let tk = ts[k].kind;
        if tk == TokenKind::EndDefinition {
            proof {
                lemma_not_last_d(ts@, k as int);
                lemma_tok(ts@, k + 1);
            }
            if ts[k + 1].kind == TokenKind::Semi {
                proof {
                    lemma_not_last_d(ts@, k + 1);
                }
                return Ok((body, ts[k + 1].span.end, k + 2));
            } else {
                return Ok((body, ts[k].span.end, k + 1));
            }
        }
        if is_body_terminator(tk) {
            return Err(unexpected(ts[k].span.start, "#end_definition".to_owned()));
        }
        let (st, n) = stmt_at(ts, k)?;
        proof {
            lemma_sstmts_push(body@, st);
        }
        body.push(st);
        k = n;
    }
}

/// Records that `name` is defined at `idx`: replaces the index of an earlier
/// definition of the name, or appends.
fn index_name(by_name: &mut Vec<(String, usize)>, name: String, idx: usize)
    requires
        forall|a: int, b: int|
            0 <= a < b < old(by_name)@.len() ==> (#[trigger] old(by_name)@[a]).0@ != (#[trigger] old(by_name)@[b]).0@,
    ensures
        final(by_name)@.map_values(|p: (String, usize)| (p.0@, p.1 as int)) == ({
            let m = old(by_name)@.map_values(|p: (String, usize)| (p.0@, p.1 as int));
            if exists|k: int| 0 <= k < m.len() && #[trigger] m[k].0 == name@ {
                let k = choose|k: int| 0 <= k < m.len() && #[trigger] m[k].0 == name@;
                m.update(k, (name@, idx as int))
            } else {
                m.push((name@, idx as int))
            }
        }),
        forall|a: int, b: int|
            0 <= a < b < final(by_name)@.len() ==> (#[trigger] final(by_name)@[a]).0@ != (#[trigger] final(by_name)@[b]).0@,
{
    let ghost m = by_name@.map_values(|p: (String, usize)| (p.0@, p.1 as int));
    let mut k: usize = 0;
    while k < by_name.len()
        invariant
            k <= by_name@.len(),
            by_name@ == old(by_name)@,
            m == old(by_name)@.map_values(|p: (String, usize)| (p.0@, p.1 as int)),
            forall|a: int, b: int|
                0 <= a < b < old(by_name)@.len() ==> (#[trigger] old(by_name)@[a]).0@ != (#[trigger] old(by_name)@[b]).0@,
            forall|j: int| 0 <= j < k ==> (#[trigger] by_name@[j]).0@ != name@,
        decreases by_name@.len() - k,
    {
        if str_eq(by_name[k].0.as_str(), name.as_str()) {
            proof {
                let c = choose|c: int| 0 <= c < m.len() && #[trigger] m[c].0 == name@;
                assert(m[k as int].0 == name@);
                if c != k {
                    if c < k {
                        assert(by_name@[c].0@ != by_name@[k as int].0@);
                    } else {
                        assert(by_name@[k as int].0@ != by_name@[c].0@);
                    }
                }
            }
            let ghost before = by_name@;
            by_name.set(k, (name, idx));
            proof {
                assert(by_name@.map_values(|p: (String, usize)| (p.0@, p.1 as int)) =~= m.update(
                    k as int,
                    (before[k as int].0@, idx as int),
                ));
            }
            return;
        }
        k += 1;
    }
    let ghost before = by_name@;
    by_name.push((name, idx));
    proof {
        assert(by_name@.map_values(|p: (String, usize)| (p.0@, p.1 as int)) =~= m.push((name@, idx as int)));
        assert(!exists|c: int| 0 <= c < m.len() && #[trigger] m[c].0 == name@) by {
            assert forall|c: int| 0 <= c < m.len() implies #[trigger] m[c].0 != name@ by {
                assert(before[c].0@ != name@);
            }
        }
    }
}

pub open spec fn by_name_v(s: Seq<(String, usize)>) -> Seq<(Seq<char>, int)> {
    s.map_values(|p: (String, usize)| (p.0@, p.1 as int))
}

/// Whether `f` is the def file of the model's `m`.
pub open spec fn file_matches(f: DefFile, m: FileD) -> bool {
    &&& defs_v(f.definitions@) == m.defs
    &&& items_m(f.headers@) == m.headers
    &&& by_name_v(f.by_name@) == names_index(m.defs)
}

pub open spec fn empty_file_d() -> FileD {
    FileD { defs: Seq::empty(), headers: Seq::empty() }
}

fn file_at(ts: &[Token], i0: usize) -> (r: Result<DefFile, DefParseError>)
    requires
        def_stream(ts@),
        i0 < ts@.len(),
    ensures
        match file_d(toks_m(ts@), toks_d(ts@), i0 as int, empty_file_d()) {
            Ok(m) => r matches Ok(f) && file_matches(f, m),
            Err(x) => r matches Err(y) && derr_matches(y, x),
        },
{
    let ghost tm = toks_m(ts@);
    let ghost tdd = toks_d(ts@);
    let mut definitions: Vec<Spanned<Definition>> = Vec::new();
    let mut by_name: Vec<(String, usize)> = Vec::new();
    let mut headers: Vec<HeaderItem> = Vec::new();
    let mut i = i0;
    proof {
        assert(defs_v(definitions@) =~= Seq::<SpannedD<DefD>>::empty());
        assert(items_m(headers@) =~= Seq::<ItemM>::empty());
        assert(by_name_v(by_name@) =~= Seq::<(Seq<char>, int)>::empty());
    }
    loop
        invariant
            def_stream(ts@),
            tm == toks_m(ts@),
            tdd == toks_d(ts@),
            i0 <= i < ts@.len(),
            file_d(tm, tdd, i0 as int, empty_file_d()) == file_d(
                tm,
                tdd,
                i as int,
                FileD { defs: defs_v(definitions@), headers: items_m(headers@) },
            ),
            by_name_v(by_name@) == names_index(defs_v(definitions@)),
            forall|a: int, b: int|
                0 <= a < b < by_name@.len() ==> (#[trigger] by_name@[a]).0@ != (#[trigger] by_name@[b]).0@,
        decreases ts@.len() - i,
    {
        proof {
            lemma_tok(ts@, i as int);
        }
        let k = ts[i].kind;
        if k == TokenKind::Eof {
            return Ok(DefFile { definitions, by_name, headers });
        }
        if k == TokenKind::Definition || k == TokenKind::DefinitionTemplate {
            let (d, j) = def_at(ts, i)?;
            let name = d.value.name.clone();
            let idx = definitions.len();
            let ghost before = definitions@;
            definitions.push(d);
            proof {
                assert(defs_v(definitions@) =~= defs_v(before).push(def_v(d)));
                assert(defs_v(definitions@).drop_last() =~= defs_v(before));
            }
            index_name(&mut by_name, name, idx);
            i = j;
        } else if k == TokenKind::Enum || k == TokenKind::Define {
            match item_at(ts, i) {
                Ok((it, j)) => {
                    proof {
                        super::header::lemma_items_m_push(headers@, it);
                    }
                    headers.push(it);
                    i = j;
                },
                Err(e) => {
                    let mut msg = "enum or #define declaration: ".to_owned();
                    let inner = e.inner.to_string();
                    msg.append(inner.as_str());
                    return Err(unexpected(e.pos, msg));
                },
            }
        } else {
            proof {
                lemma_not_last_d(ts@, i as int);
            }
            i = i + 1;
        }
    }
}

/// A lex error as a def parse error.
pub open spec fn lex_derr(k: LexErrorKind) -> DefErrD {
    match k {
        LexErrorKind::UnterminatedString => DefErrD::UnterminatedString,
        LexErrorKind::UnterminatedBlockComment => DefErrD::UnterminatedBlockComment,
        LexErrorKind::UnexpectedChar(c) => DefErrD::UnexpectedChar(c),
    }
}

fn lex_error_to_parse_error(e: super::lexer::LexError) -> (r: DefParseError)
    ensures
        r.pos == e.span.start,
        derr_v(r.inner) == lex_derr(e.kind),
{
    let kind = match e.kind {
        LexErrorKind::UnterminatedString => DefParseErrorKind::UnterminatedString,
        LexErrorKind::UnterminatedBlockComment => DefParseErrorKind::UnterminatedBlockComment,
        LexErrorKind::UnexpectedChar(c) => DefParseErrorKind::UnexpectedChar(c),
    };
    ParseError::new(e.span.start, kind)
}

/// The model's tokens (with their text) for the spans `ts` of `b`.
pub open spec fn spans_d(b: Seq<u8>, ts: Seq<TokSpan>) -> Seq<TokD> {
    ts.map_values(|t: TokSpan| (t.0, t.1, t.2, vstd::utf8::decode_utf8(b.subrange(t.1, t.2))))
}

/// The outcome of parsing the def text whose UTF-8 bytes are `b`.
pub open spec fn def_file_m(b: Seq<u8>) -> Result<FileD, DErr> {
    match lex_spec(b, 0, false) {
        Ok(ts) => file_d(super::header::spans_m(b, ts), spans_d(b, ts), 0, empty_file_d()),
        Err((k, s, _e)) => Err((s, lex_derr(k))),
    }
}

/// A parser over the tokens of a def text.
pub struct DefParser<'a> {
    tokens: Vec<Token<'a>>,
    pos: usize,
}

proof fn lemma_def_stream_of_lex(b: Seq<u8>, v: Seq<Token>, ts: Seq<TokSpan>)
    requires
        v.len() == ts.len(),
        forall|i: int|
            0 <= i < ts.len() ==> super::lexer::token_view(#[trigger] v[i]) == ts[i]
                && v[i].source.spec_bytes() == b.subrange(ts[i].1, ts[i].2),
        ts.len() >= 1,
        ts.last().0 == TokenKind::Eof,
        forall|i: int| 0 <= i < ts.len() - 1 ==> (#[trigger] ts[i]).0 != TokenKind::Eof,
        forall|i: int|
            0 <= i < ts.len() && (#[trigger] ts[i]).0 == TokenKind::Str ==> {
                &&& 0 <= ts[i].1
                &&& ts[i].1 + 2 <= ts[i].2 <= b.len()
                &&& b[ts[i].1] == 34
                &&& b[ts[i].2 - 1] == 34
            },
    ensures
        def_stream(v),
        toks_m(v) == super::header::spans_m(b, ts),
        toks_d(v) == spans_d(b, ts),
{
    assert(toks_m(v) =~= super::header::spans_m(b, ts));
    let m = toks_m(v);
    assert(m.last() == m[m.len() - 1]);
    assert(ts.last() == ts[ts.len() - 1]);
    assert forall|i: int| 0 <= i < m.len() - 1 implies (#[trigger] m[i]).0 != TokenKind::Eof by {
        assert(m[i].0 == ts[i].0);
    }
    assert forall|i: int| 0 <= i < v.len() && (#[trigger] v[i]).kind == TokenKind::Str implies {
        let bb = v[i].source.spec_bytes();
        &&& bb.len() >= 2
        &&& bb[0] == 34
        &&& bb[bb.len() - 1] == 34
    } by {
        assert(ts[i].0 == TokenKind::Str);
    }
    assert forall|i: int| 0 <= i < v.len() implies #[trigger] toks_d(v)[i] == spans_d(b, ts)[i] by {
        vstd::utf8::encode_utf8_decode_utf8(v[i].source@);
    }
    assert(toks_d(v) =~= spans_d(b, ts));
}

impl<'a> DefParser<'a> {
    #[verifier::type_invariant]
    spec fn inv(&self) -> bool {
        &&& def_stream(self.tokens@)
        &&& self.pos < self.tokens@.len()
    }

    /// The tokens, in the model's terms.
    pub closed spec fn tokens_d(&self) -> Seq<TokD> {
        toks_d(self.tokens@)
    }

    /// The tokens, in the header grammar's terms.
    pub closed spec fn tokens_m(&self) -> Seq<super::header::TokM> {
        toks_m(self.tokens@)
    }

    /// The index of the current token.
    pub closed spec fn pos_d(&self) -> int {
        self.pos as int
    }

    /// Lexes `input`. On a lex error the stream is a lone `Eof`, so
    /// [`parse_expr`](Self::parse_expr) fails cleanly; use [`parse_def_file`]
    /// when the lex error must be surfaced.
    pub fn new(input: &'a str) -> (r: Self)
        ensures
            r.pos_d() == 0,
            match lex_spec(input.spec_bytes(), 0, false) {
                Ok(ts) => r.tokens_d() == spans_d(input.spec_bytes(), ts),
                Err(_) => r.tokens_d() == seq![
                    (TokenKind::Eof, input.spec_bytes().len() as int, input.spec_bytes().len() as int, Seq::<char>::empty())
                ],
            },
    {
        let b = input.as_bytes();
        let ghost bs = b@;
        proof {
            super::lexer::lemma_lex_shape(bs, 0, false);
            super::lexer::lemma_lex_strings(bs, 0, false);
            vstd::utf8::encode_utf8_valid_utf8(input@);
            vstd::utf8::is_char_boundary_start_end_of_seq(bs);
        }
        let tokens = match lex(input) {
            Ok(t) => {
                proof {
                    if let Ok(ts) = lex_spec(bs, 0, false) {
                        lemma_def_stream_of_lex(bs, t@, ts);
                    }
                }
                t
            },
            Err(_) => {
                let n = b.len();
                let eof = Token { kind: TokenKind::Eof, span: Span { start: n, end: n }, source: super::lexer::slice_at(input, n, n) };
                let mut v: Vec<Token<'a>> = Vec::new();
                v.push(eof);
                proof {
                    assert(eof.source.spec_bytes() =~= Seq::<u8>::empty());
                    vstd::utf8::encode_utf8_decode_utf8(eof.source@);
                    assert(eof.source@ =~= Seq::<char>::empty());
                    assert(toks_m(v@).last() == toks_m(v@)[0]);
                    assert(toks_d(v@) =~= seq![(TokenKind::Eof, n as int, n as int, Seq::<char>::empty())]);
                }
                v
            },
        };
        DefParser { tokens, pos: 0 }
    }

    /// Parses one expression at the current token.
    pub fn parse_expr(&mut self) -> (r: Result<Spanned<Expr>, DefParseError>)
        ensures
            final(self).tokens_d() == old(self).tokens_d(),
            match expr_d(old(self).tokens_d(), old(self).pos_d()) {
                Ok((m, j)) => r matches Ok(e) && sexpr_v(e) == m && final(self).pos_d() == j,
                Err(x) => r matches Err(y) && derr_matches(y, x),
            },
    {
        proof {
            use_type_invariant(&*self);
        }
        match expr_at(self.tokens.as_slice(), self.pos) {
            Ok((e, k)) => {
                self.pos = k;
                Ok(e)
            },
            Err(x) => Err(x),
        }
    }

    /// Parses the rest of the file.
    pub fn parse_file(&mut self) -> (r: Result<DefFile, DefParseError>)
        ensures
            final(self).tokens_d() == old(self).tokens_d(),
            match file_d(old(self).tokens_m(), old(self).tokens_d(), old(self).pos_d(), empty_file_d()) {
                Ok(m) => r matches Ok(f) && file_matches(f, m),
                Err(x) => r matches Err(y) && derr_matches(y, x),
            },
    {
        proof {
            use_type_invariant(&*self);
        }
        let r = file_at(self.tokens.as_slice(), self.pos);
        if r.is_ok() {
            self.pos = self.tokens.len() - 1;
        }
        r
    }
}

/// Parses a def file: its definitions, in order, and its file-local
/// declarations; the first lex or parse error is the file's error.
pub fn parse_def_file(input: &str) -> (r: Result<DefFile, DefParseError>)
    ensures
        match def_file_m(input.spec_bytes()) {
            Ok(m) => r matches Ok(f) && file_matches(f, m),
            Err(x) => r matches Err(y) && derr_matches(y, x),
        },
{
    let ghost bs = input.spec_bytes();
    proof {
        super::lexer::lemma_lex_shape(bs, 0, false);
        super::lexer::lemma_lex_strings(bs, 0, false);
    }
    let tokens = match lex(input) {
        Ok(t) => t,
        Err(e) => return Err(lex_error_to_parse_error(e)),
    };
    proof {
        if let Ok(ts) = lex_spec(bs, 0, false) {
            lemma_def_stream_of_lex(bs, tokens@, ts);
        }
    }
    file_at(tokens.as_slice(), 0)
}

// ── numbers and rendering ─────────────────────────────────────────────────────

/// Whether a number literal is float-shaped: it holds a `.` or ends in `f`.
pub open spec fn float_shaped(b: Seq<u8>) -> bool {
    b.contains(46u8) || (b.len() > 0 && b.last() == 102u8)
}

/// Whether a [`Expr::Number`] literal is float-shaped — it contains a `.` or
/// a trailing `f`. Integer-shaped literals parse as integers; float-shaped
/// ones as floats.
pub fn number_is_float(s: &str) -> (r: bool)
    ensures
        r == float_shaped(s.spec_bytes()),
{
    let b = s.as_bytes();
    let mut i: usize = 0;
    while i < b.len()
        invariant
            i <= b@.len(),
            b@ == s.spec_bytes(),
            forall|k: int| 0 <= k < i ==> b@[k] != 46u8,
        decreases b.len() - i,
    {
        if b[i] == 46 {
            assert(b@.contains(46u8)) by {
                assert(b@[i as int] == 46u8);
            }
            return true;
        }
        i += 1;
    }
    let n = b.len();
    n > 0 && b[n - 1] == 102
}

/// The value of an integer-shaped number literal, truncated to `i32`;
/// `None` for float-shaped literals, literals that are no `i64`, and
/// anything but a number.
pub open spec fn int_value(e: Expr) -> Option<i32> {
    match e {
        Expr::Number(s) => if float_shaped(vstd::utf8::encode_utf8(s@)) {
            None
        } else {
            match super::number::i64_of(vstd::utf8::encode_utf8(s@)) {
                Some(v) => Some((v as i64) as i32),
                None => None,
            }
        },
        _ => None,
    }
}

impl Expr {
    /// The value of an integer-shaped number literal, truncated to `i32`
    /// (see [`int_value`]).
    pub fn as_i32(&self) -> (r: Option<i32>)
        ensures
            r == int_value(*self),
    {
        match self {
            Expr::Number(s) => {
                if number_is_float(s.as_str()) {
                    None
                } else {
                    match super::number::parse_i64(s.as_str()) {
                        Some(n) => Some(n as i32),
                        None => None,
                    }
                }
            },
            _ => None,
        }
    }
}

/// The text of an expression, as written in a def.
pub open spec fn expr_text(e: Expr) -> Seq<char>
    decreases e,
{
    match e {
        Expr::Number(s) => s@,
        Expr::Bool(b) => if b {
            "TRUE"@
        } else {
            "FALSE"@
        },
        Expr::String(s) => "\""@ + s@ + "\""@,
        Expr::Symbol(s) => s@,
        Expr::Constructor(c) => c.name@ + "("@ + join_text(c.arguments@, ", "@) + ")"@,
        Expr::BitOr(v) => join_text(v@, " | "@),
        Expr::Add(v) => join_text(v@, " + "@),
    }
}

/// The texts of `s` separated by `sep`.
pub open spec fn join_text(s: Seq<Spanned<Expr>>, sep: Seq<char>) -> Seq<char>
    decreases s,
{
    if s.len() == 0 {
        Seq::empty()
    } else if s.len() == 1 {
        expr_text(s[0].value)
    } else {
        join_text(s.drop_last(), sep) + sep + expr_text(s.last().value)
    }
}

impl Expr {
    /// The text of the expression, as written in a def.
    pub fn to_string(&self) -> (r: String)
        ensures
            r@ == expr_text(*self),
        decreases *self,
    {
        match self {
            Expr::Number(s) => s.clone(),
            Expr::Bool(b) => if *b {
                "TRUE".to_owned()
            } else {
                "FALSE".to_owned()
            },
            Expr::String(s) => {
                let mut out = "\"".to_owned();
                out.append(s.as_str());
                out.append("\"");
                out
            },
            Expr::Symbol(s) => s.clone(),
            Expr::Constructor(c) => {
                let mut out = c.name.clone();
                out.append("(");
                let inner = join_exprs(&c.arguments, ", ", Ghost(*self));
                out.append(inner.as_str());
                out.append(")");
                out
            },
            Expr::BitOr(v) => join_exprs(v, " | ", Ghost(*self)),
            Expr::Add(v) => join_exprs(v, " + ", Ghost(*self)),
        }
    }
}

/// The texts of `v` separated by `sep`.
fn join_exprs(v: &Vec<Spanned<Expr>>, sep: &str, Ghost(parent): Ghost<Expr>) -> (r: String)
    requires
        decreases_to!(parent => v@),
    ensures
        r@ == join_text(v@, sep@),
    decreases parent, 1int,
{
    let mut out = String::new();
    let mut i: usize = 0;
    while i < v.len()
        invariant
            i <= v@.len(),
            decreases_to!(parent => v@),
            out@ == join_text(v@.take(i as int), sep@),
        decreases v@.len() - i,
    {
        assert(decreases_to!(parent => v@[i as int].value));
        if i > 0 {
            out.append(sep);
        }
        let t = v[i].value.to_string();
        out.append(t.as_str());
        i += 1;
        proof {
            let p = v@.take(i as int);
            assert(p.drop_last() =~= v@.take(i - 1));
            if i == 1 {
                assert(out@ =~= join_text(p, sep@));
            }
        }
    }
    assert(v@.take(v@.len() as int) =~= v@);
    out
}

impl PropertyPath {
    /// A path of the single field `name`.
    pub fn simple(name: String) -> (r: Self)
        ensures
            r.segments@.len() == 1,
            r.segments@[0] matches PathSegment::Field(n) && n@ == name@,
    {
        let mut segments = Vec::new();
        segments.push(PathSegment::Field(name));
        PropertyPath { segments }
    }

    /// The path as written in a def: fields joined by `.`, indices in `[…]`.
    pub fn to_string(&self) -> (r: String)
        ensures
            r@ == path_text(self.segments@),
    {
        let mut out = String::new();
        let mut i: usize = 0;
        while i < self.segments.len()
            invariant
                i <= self.segments@.len(),
                out@ == path_text(self.segments@.take(i as int)),
            decreases self.segments@.len() - i,
        {
            match &self.segments[i] {
                PathSegment::Field(name) => {
                    if i > 0 {
                        out.append(".");
                    }
                    out.append(name.as_str());
                },
                PathSegment::Index(e) => {
                    out.append("[");
                    let t = e.value.to_string();
                    out.append(t.as_str());
                    out.append("]");
                },
            }
            i += 1;
            proof {
                assert(self.segments@.take(i as int).drop_last() =~= self.segments@.take(i - 1));
            }
        }
        assert(self.segments@.take(self.segments@.len() as int) =~= self.segments@);
        out
    }
}

/// The text of a path: fields joined by `.`, indices in `[…]`.
pub open spec fn path_text(s: Seq<PathSegment>) -> Seq<char>
    decreases s.len(),
{
    if s.len() == 0 {
        Seq::empty()
    } else {
        let prev = path_text(s.drop_last());
        match s.last() {
            PathSegment::Field(n) => if s.len() > 1 {
                prev + "."@ + n@
            } else {
                prev + n@
            },
            PathSegment::Index(e) => prev + "["@ + expr_text(e.value) + "]"@,
        }
    }
}

/// The message of each def parse error kind.
pub open spec fn def_err_message(k: DefErrD) -> Seq<char> {
    match k {
        DefErrD::UnexpectedToken(e) => "expected "@ + e,
        DefErrD::MismatchedTag(o, c) => "mismatched tag: opened <"@ + o + ">, closed <\\"@ + c + ">"@,
        DefErrD::UnterminatedString => "unterminated string"@,
        DefErrD::UnterminatedBlockComment => "unterminated block comment"@,
        DefErrD::UnexpectedChar(c) => super::lexer::unexpected_char_message(c),
    }
}

impl DefParseErrorKind {
    /// The message describing this error.
    pub fn to_string(&self) -> (r: String)
        ensures
            r@ == def_err_message(derr_v(*self)),
    {
        match self {
            DefParseErrorKind::UnexpectedToken { expected } => {
                let mut s = "expected ".to_owned();
                s.append(expected.as_str());
                s
            },
            DefParseErrorKind::MismatchedTag { opened, closed } => {
                let mut s = "mismatched tag: opened <".to_owned();
                s.append(opened.as_str());
                s.append(">, closed <\\");
                s.append(closed.as_str());
                s.append(">");
                s
            },
            DefParseErrorKind::UnterminatedString => "unterminated string".to_owned(),
            DefParseErrorKind::UnterminatedBlockComment => "unterminated block comment".to_owned(),
            DefParseErrorKind::UnexpectedChar(c) => super::lexer::LexErrorKind::UnexpectedChar(*c).to_string(),
        }
    }
}

} // verus!
