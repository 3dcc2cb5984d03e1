use fable_data::def::text::base::Span;
use fable_data::def::text::lexer::{lex, LexErrorKind, TokenKind};

/// Lex, dropping the trailing `Eof`, and collect just the kinds.
fn kinds(input: &str) -> Vec<TokenKind> {
    let mut toks = lex(input).expect("lex ok");
    assert_eq!(toks.last().map(|t| t.kind), Some(TokenKind::Eof));
    toks.pop();
    toks.into_iter().map(|t| t.kind).collect()
}

/// Lex, dropping the trailing `Eof`, and collect `(kind, source)` pairs.
fn toks(input: &str) -> Vec<(TokenKind, &str)> {
    let mut toks = lex(input).expect("lex ok");
    toks.pop(); // Eof
    toks.into_iter().map(|t| (t.kind, t.source)).collect()
}

fn lex_err(input: &str) -> LexErrorKind {
    lex(input).expect_err("expected lex error").kind
}


// --- numbers: raw slice, no interpretation --------------------------------

#[test]
fn lexer_integer() {
    assert_eq!(toks("42"), vec![(TokenKind::Number, "42")]);
    assert_eq!(toks("42282949"), vec![(TokenKind::Number, "42282949")]);
}

#[test]
fn lexer_negative_integer() {
    assert_eq!(toks("-42"), vec![(TokenKind::Number, "-42")]);
    assert_eq!(toks("-42282949"), vec![(TokenKind::Number, "-42282949")]);
}

#[test]
fn float_forms() {
    // Every float form keeps its exact source — interpretation is deferred.
    assert_eq!(toks("4.2"), vec![(TokenKind::Number, "4.2")]);
    assert_eq!(toks("4.2f"), vec![(TokenKind::Number, "4.2f")]);
    assert_eq!(toks("4."), vec![(TokenKind::Number, "4.")]);
    assert_eq!(toks("-4.2"), vec![(TokenKind::Number, "-4.2")]);
    assert_eq!(toks("-4.2f"), vec![(TokenKind::Number, "-4.2f")]);
    assert_eq!(toks("-4."), vec![(TokenKind::Number, "-4.")]);
}

#[test]
fn number_stops_at_delimiter() {
    assert_eq!(toks("Time[0]"), vec![(TokenKind::Ident, "Time"), (TokenKind::LBracket, "["), (TokenKind::Number, "0"), (TokenKind::RBracket, "]")]);
}

// --- strings: raw slice incl. quotes --------------------------------------

#[test]
fn string_keeps_quotes() {
    assert_eq!(toks(r#""Hello, World!""#), vec![(TokenKind::Str, r#""Hello, World!""#)]);
}

#[test]
fn string_source_reproduces_exactly() {
    let input = r#"Name "Test""#;
    let t = &lex(input).unwrap()[1];
    assert_eq!(t.kind, TokenKind::Str);
    assert_eq!(&input[t.span.start..t.span.end], t.source);
    assert_eq!(t.source, r#""Test""#);
}

// --- identifiers & contextual words stay TokenKind::Ident ----------------------------

#[test]
fn lexer_identifier() {
    assert_eq!(toks("GRAPHIC_NULL"), vec![(TokenKind::Ident, "GRAPHIC_NULL")]);
}

#[test]
fn contextual_words_are_idents() {
    // TRUE/FALSE/BTRUE/BFALSE/NULL/specialises are recognized by the parser,
    // not the lexer (§11.3).
    for w in ["TRUE", "FALSE", "BTRUE", "BFALSE", "NULL", "specialises"] {
        assert_eq!(kinds(w), vec![TokenKind::Ident], "{w}");
    }
}

#[test]
fn keywords() {
    assert_eq!(kinds("namespace"), vec![TokenKind::Namespace]);
    assert_eq!(kinds("enum"), vec![TokenKind::Enum]);
}

// --- paths & indices ------------------------------------------------------

#[test]
fn lexer_nested_path() {
    assert_eq!(kinds("Stats.ExperienceWorth"), vec![TokenKind::Ident, TokenKind::Dot, TokenKind::Ident]);
}

#[test]
fn lexer_nested_field_and_index() {
    assert_eq!(
        kinds("Time[0].SkyTexture0"),
        vec![TokenKind::Ident, TokenKind::LBracket, TokenKind::Number, TokenKind::RBracket, TokenKind::Dot, TokenKind::Ident]
    );
}

// --- expressions ----------------------------------------------------------

#[test]
fn lexer_constructor_with_args() {
    assert_eq!(
        kinds("CRGBColour(255, 128, 64, 255)"),
        vec![TokenKind::Ident, TokenKind::LParen, TokenKind::Number, TokenKind::Comma, TokenKind::Number, TokenKind::Comma, TokenKind::Number, TokenKind::Comma, TokenKind::Number, TokenKind::RParen]
    );
}

#[test]
fn lexer_empty_constructor() {
    assert_eq!(kinds("CRGBColour()"), vec![TokenKind::Ident, TokenKind::LParen, TokenKind::RParen]);
}

#[test]
fn add_and_bitor() {
    assert_eq!(kinds("1 + 2 + 3"), vec![TokenKind::Number, TokenKind::Plus, TokenKind::Number, TokenKind::Plus, TokenKind::Number]);
    assert_eq!(kinds("A | B | C"), vec![TokenKind::Ident, TokenKind::Pipe, TokenKind::Ident, TokenKind::Pipe, TokenKind::Ident]);
}

// --- tagged-block delimiters ----------------------------------------------

#[test]
fn tagged_block_open() {
    assert_eq!(kinds("<CCreatureDef>"), vec![TokenKind::Lt, TokenKind::Ident, TokenKind::Gt]);
}

#[test]
fn tagged_block_close() {
    // `<\Tag>` is single `<` then `\` — never `TokenKind::Shl`.
    assert_eq!(kinds("<\\CCreatureDef>"), vec![TokenKind::Lt, TokenKind::Backslash, TokenKind::Ident, TokenKind::Gt]);
}

#[test]
fn tagged_block_roundtrip() {
    assert_eq!(
        kinds("<A>\n  Health 100;\n<\\A>"),
        vec![TokenKind::Lt, TokenKind::Ident, TokenKind::Gt, TokenKind::Ident, TokenKind::Number, TokenKind::Semi, TokenKind::Lt, TokenKind::Backslash, TokenKind::Ident, TokenKind::Gt]
    );
}

// --- directives -----------------------------------------------------------

#[test]
fn def_directives() {
    assert_eq!(kinds("#definition"), vec![TokenKind::Definition]);
    assert_eq!(kinds("#definition_template"), vec![TokenKind::DefinitionTemplate]);
    assert_eq!(kinds("#end_definition"), vec![TokenKind::EndDefinition]);
}

#[test]
fn directive_longest_match() {
    // `#definition_template` must win over the `#definition` prefix.
    assert_eq!(kinds("#definition_template OBJECT T"), vec![TokenKind::DefinitionTemplate, TokenKind::Ident, TokenKind::Ident]);
    assert_eq!(kinds("#definition OBJECT T"), vec![TokenKind::Definition, TokenKind::Ident, TokenKind::Ident]);
}

#[test]
fn header_directives() {
    assert_eq!(kinds("#define"), vec![TokenKind::Define]);
    assert_eq!(kinds("#ifdef"), vec![TokenKind::Ifdef]);
    assert_eq!(kinds("#endif"), vec![TokenKind::Endif]);
}

#[test]
fn def_header_line() {
    assert_eq!(
        kinds("#definition OBJECT CHILD specialises PARENT"),
        vec![TokenKind::Definition, TokenKind::Ident, TokenKind::Ident, TokenKind::Ident, TokenKind::Ident]
    );
}

#[test]
fn unknown_directive_errors() {
    // `#else`/`#ifndef`/`#pragma` have no §11.3 token; they error on `#`.
    for d in ["#else", "#ifndef", "#pragma", "#definitionX"] {
        assert_eq!(lex_err(d), LexErrorKind::UnexpectedChar('#'), "{d}");
    }
}

// --- header operators -----------------------------------------------------

#[test]
fn enum_decl() {
    assert_eq!(
        kinds("enum EFoo { A = 1, B = 2 };"),
        vec![TokenKind::Enum, TokenKind::Ident, TokenKind::LBrace, TokenKind::Ident, TokenKind::Eq, TokenKind::Number, TokenKind::Comma, TokenKind::Ident, TokenKind::Eq, TokenKind::Number, TokenKind::RBrace, TokenKind::Semi]
    );
}

#[test]
fn shift_is_greedy() {
    assert_eq!(kinds("1 << 2"), vec![TokenKind::Number, TokenKind::Shl, TokenKind::Number]);
    assert_eq!(toks("<<"), vec![(TokenKind::Shl, "<<")]);
}

#[test]
fn define_line() {
    assert_eq!(kinds("#define FOO 3"), vec![TokenKind::Define, TokenKind::Ident, TokenKind::Number]);
}

// --- trivia ---------------------------------------------------------------

#[test]
fn line_comment_consumed() {
    assert_eq!(kinds("// just a comment\nHealth 100;"), vec![TokenKind::Ident, TokenKind::Number, TokenKind::Semi]);
}

#[test]
fn block_comment_consumed() {
    assert_eq!(kinds("/* block */\nHealth 100;"), vec![TokenKind::Ident, TokenKind::Number, TokenKind::Semi]);
}

#[test]
fn inline_block_comment() {
    assert_eq!(kinds(r#"Name /* inline */ "Test";"#), vec![TokenKind::Ident, TokenKind::Str, TokenKind::Semi]);
}

#[test]
fn multiline_block_comment() {
    assert_eq!(kinds("/* multi\n line */\nX 1;"), vec![TokenKind::Ident, TokenKind::Number, TokenKind::Semi]);
}

#[test]
fn slash_star_banner_is_trivia() {
    // A `/*****…` decorative rule with no `*/` is a section separator, not
    // an (unterminated) comment. The def that follows still lexes.
    let input = "#end_definition\n/*******************************\n#definition OBJECT T";
    assert_eq!(kinds(input), vec![TokenKind::EndDefinition, TokenKind::Definition, TokenKind::Ident, TokenKind::Ident]);
}

#[test]
fn bare_star_banner_is_trivia() {
    let input = "#end_definition\n*******************************\n#definition OBJECT T";
    assert_eq!(kinds(input), vec![TokenKind::EndDefinition, TokenKind::Definition, TokenKind::Ident, TokenKind::Ident]);
}

#[test]
fn banner_keeps_following_tokens() {
    assert_eq!(kinds("/*****\nHealth 100;"), vec![TokenKind::Ident, TokenKind::Number, TokenKind::Semi]);
    assert_eq!(kinds("*****\nHealth 100;"), vec![TokenKind::Ident, TokenKind::Number, TokenKind::Semi]);
}

#[test]
fn crlf_whitespace_and_spans() {
    // `\r` is whitespace; spans are byte offsets into the CRLF source.
    let input = "Health\r\n100";
    let t = toks(input);
    assert_eq!(t, vec![(TokenKind::Ident, "Health"), (TokenKind::Number, "100")]);
    let full = lex(input).unwrap();
    assert_eq!(full[1].span, Span { start: 8, end: 11 });
}

#[test]
fn only_trivia_yields_eof() {
    for input in ["", "   \n\t  \r\n  ", "// line\n/* block */\n"] {
        assert_eq!(lex(input).unwrap().into_iter().map(|t| t.kind).collect::<Vec<_>>(), vec![TokenKind::Eof]);
    }
}

// --- errors ---------------------------------------------------------------

#[test]
fn unterminated_string() {
    assert_eq!(lex_err("Name \"no close\n"), LexErrorKind::UnterminatedString);
}

#[test]
fn unterminated_block_comment() {
    // A `/*` with real content and no `*/` is a genuine error — only an
    // all-separator line is treated as a decorative banner.
    assert_eq!(lex_err("Health /* never closes"), LexErrorKind::UnterminatedBlockComment);
    assert_eq!(lex_err("/* real comment, no closer\nX 1;"), LexErrorKind::UnterminatedBlockComment);
}

#[test]
fn unexpected_char() {
    assert_eq!(lex_err("Health @ 1"), LexErrorKind::UnexpectedChar('@'));
    // A bare `-` not followed by a digit is not a number start.
    assert_eq!(lex_err("- 1"), LexErrorKind::UnexpectedChar('-'));
}

#[test]
fn error_span_points_at_offender() {
    let e = lex("Health @").unwrap_err();
    assert_eq!(e.kind, LexErrorKind::UnexpectedChar('@'));
    assert_eq!(e.span, Span { start: 7, end: 8 });
}

// --- eof ------------------------------------------------------------------

#[test]
fn always_ends_with_eof() {
    let toks = lex("Health 100;").unwrap();
    let last = toks.last().unwrap();
    assert_eq!(last.kind, TokenKind::Eof);
    assert_eq!(last.source, "");
    assert_eq!(last.span, Span { start: 11, end: 11 });
}


#[test]
fn only_trivia_between_tokens() {
    let input = "  // note\n Foo /* c */ -12.5f\t<<\n";
    let all = lex(input).expect("lex ok");
    let spans: Vec<(usize, usize)> = all.iter().map(|t| (t.span.start, t.span.end)).collect();
    assert_eq!(spans, vec![(11, 14), (23, 29), (30, 32), (input.len(), input.len())]);
    assert_eq!(
        toks(input),
        vec![(TokenKind::Ident, "Foo"), (TokenKind::Number, "-12.5f"), (TokenKind::Shl, "<<")]
    );
    assert_eq!(toks("namespace enum enums"), vec![
        (TokenKind::Namespace, "namespace"),
        (TokenKind::Enum, "enum"),
        (TokenKind::Ident, "enums"),
    ]);
}

#[test]
fn shift_and_string_shapes() {
    assert_eq!(toks("a << b"), vec![(TokenKind::Ident, "a"), (TokenKind::Shl, "<<"), (TokenKind::Ident, "b")]);
    assert_eq!(toks("< <"), vec![(TokenKind::Lt, "<"), (TokenKind::Lt, "<")]);
    assert_eq!(toks("\"ab\"\"c\""), vec![(TokenKind::Str, "\"ab\""), (TokenKind::Str, "\"c\"")]);
}
