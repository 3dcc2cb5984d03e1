use fable_data::def::text::base::Spanned;
use fable_data::def::text::def_text::{
    number_is_float, parse_def_file, DefParser, Definition, DefParseErrorKind, Expr, PathSegment, PropertyPath, Statement,
};

fn parse_def(body: &str) -> Spanned<Definition> {
    let input = format!("#definition OBJECT T\n{body}\n#end_definition");
    parse_def_file(&input).unwrap().definitions.pop().unwrap()
}

fn parse_first_def(input: &str) -> Spanned<Definition> {
    parse_def_file(input).unwrap().definitions.pop().unwrap()
}

fn parse_err(input: &str) -> DefParseErrorKind {
    parse_def_file(input).unwrap_err().inner
}

fn parse_stmt(stmt: &str) -> Spanned<Statement> {
    parse_def(stmt).value.body.pop().unwrap()
}

fn parse_expr(value: &str) -> Spanned<Expr> {
    match parse_stmt(&format!("X {value};")).value {
        Statement::Field(f) => f.expr,
        other => panic!("expected Field, got {other:?}"),
    }
}

fn parse_path(path: &str) -> PropertyPath {
    let Spanned { value: Statement::Field(f), .. } = parse_stmt(&format!("{path} 0;")) else {
        panic!()
    };
    f.path
}

fn number(value: &str) -> String {
    match parse_expr(value).value {
        Expr::Number(s) => s,
        other => panic!("expected Number, got {other:?}"),
    }
}

fn index_of(by_name: &[(String, usize)], name: &str) -> usize {
    by_name.iter().find(|(n, _)| n == name).map(|(_, i)| *i).expect("name indexed")
}

#[test]
fn def_text_integer() {
    assert_eq!(number("42"), "42");
    assert_eq!(number("42282949"), "42282949");
}

#[test]
fn def_text_negative_integer() {
    assert_eq!(number("-42"), "-42");
    assert_eq!(number("-42282949"), "-42282949");
}

#[test]
fn float_keeps_source() {
    assert_eq!(number("4.2"), "4.2");
    assert_eq!(number("4.2f"), "4.2f");
    assert_eq!(number("4."), "4.");
    assert_eq!(number("-4.2"), "-4.2");
    assert_eq!(number("-4.2f"), "-4.2f");
    assert_eq!(number("-4."), "-4.");
}

#[test]
fn number_shape_classification() {
    assert!(!number_is_float("42"));
    assert!(!number_is_float("-42"));
    assert!(number_is_float("4.2"));
    assert!(number_is_float("4."));
    assert!(number_is_float("4.2f"));
}

#[test]
fn string() {
    let Expr::String(s) = parse_expr(r#""Hello, World!""#).value else { panic!() };
    assert_eq!(s, "Hello, World!");
}

#[test]
fn bool_test() {
    assert!(matches!(parse_expr("TRUE").value, Expr::Bool(true)));
    assert!(matches!(parse_expr("FALSE").value, Expr::Bool(false)));
}

#[test]
fn bool_b_prefix() {
    assert!(matches!(parse_expr("BTRUE").value, Expr::Bool(true)));
    assert!(matches!(parse_expr("BFALSE").value, Expr::Bool(false)));
}

#[test]
fn add_n_ary() {
    let Expr::Add(terms) = &parse_expr("1 + 2 + 3").value else { panic!() };
    assert_eq!(terms.len(), 3);
}

#[test]
fn bitor_n_ary() {
    let Expr::BitOr(terms) = &parse_expr("A | B | C").value else { panic!() };
    assert_eq!(terms.len(), 3);
}

#[test]
fn bitor_precedence_lower_than_add() {
    let Expr::BitOr(terms) = &parse_expr("A | B + C").value else { panic!() };
    assert_eq!(terms.len(), 2);
    assert!(matches!(&terms[0].value, Expr::Symbol(s) if s == "A"));
    let Expr::Add(add_terms) = &terms[1].value else { panic!() };
    assert_eq!(add_terms.len(), 2);
}

#[test]
fn def_text_constructor_with_args() {
    let Expr::Constructor(c) = &parse_expr("CRGBColour(255, 128, 64, 255)").value else { panic!() };
    assert_eq!(c.name, "CRGBColour");
    assert_eq!(c.arguments.len(), 4);
}

#[test]
fn def_text_empty_constructor() {
    let Expr::Constructor(c) = &parse_expr("CRGBColour()").value else { panic!() };
    assert!(c.arguments.is_empty());
}

#[test]
fn def_text_identifier() {
    let Expr::Symbol(s) = parse_expr("GRAPHIC_NULL").value else { panic!() };
    assert_eq!(s, "GRAPHIC_NULL");
}

#[test]
fn simple_path() {
    let p = parse_path("Health");
    assert_eq!(p.segments.len(), 1);
    assert!(matches!(&p.segments[0], PathSegment::Field(s) if s == "Health"));
}

#[test]
fn def_text_nested_path() {
    let p = parse_path("Stats.ExperienceWorth");
    assert_eq!(p.segments.len(), 2);
}

#[test]
fn integer_index() {
    let p = parse_path("Time[0]");
    assert!(matches!(
        &p.segments[1],
        PathSegment::Index(spanned) if matches!(&spanned.value, Expr::Number(s) if s == "0")
    ));
}

#[test]
fn negative_index() {
    let p = parse_path("Time[-1]");
    assert!(matches!(
        &p.segments[1],
        PathSegment::Index(spanned) if matches!(&spanned.value, Expr::Number(s) if s == "-1")
    ));
}

#[test]
fn ident_index() {
    let p = parse_path("Foo[BAR_CONST]");
    let PathSegment::Index(spanned) = &p.segments[1] else { panic!() };
    let Expr::Symbol(s) = &spanned.value else { panic!() };
    assert_eq!(s, "BAR_CONST");
}

#[test]
fn string_index() {
    let p = parse_path("Map[\"DAY\"]");
    let PathSegment::Index(spanned) = &p.segments[1] else { panic!() };
    let Expr::String(s) = &spanned.value else { panic!() };
    assert_eq!(s, "DAY");
}

#[test]
fn expression_index() {
    let p = parse_path("States[STATE + 1]");
    assert!(matches!(
        &p.segments[1],
        PathSegment::Index(spanned) if matches!(spanned.value, Expr::Add(_))
    ));
}

#[test]
fn def_text_nested_field_and_index() {
    let p = parse_path("Time[0].SkyTexture0");
    assert_eq!(p.segments.len(), 3);
    assert!(matches!(&p.segments[0], PathSegment::Field(s) if s == "Time"));
    assert!(matches!(
        &p.segments[1],
        PathSegment::Index(spanned) if matches!(&spanned.value, Expr::Number(s) if s == "0")
    ));
    assert!(matches!(&p.segments[2], PathSegment::Field(s) if s == "SkyTexture0"));
}

#[test]
fn field_assignment() {
    let Spanned { value: Statement::Field(f), .. } = parse_stmt("Health 100;") else { panic!() };
    assert_eq!(f.path.segments.len(), 1);
    assert!(matches!(&f.expr.value, Expr::Number(s) if s == "100"));
}

#[test]
fn method_call() {
    let Spanned { value: Statement::MethodCall(mc), .. } =
        parse_stmt("Components.Add(\"CTCPhysicsStandard\");")
    else {
        panic!()
    };
    assert_eq!(mc.call.name, "Add");
    assert_eq!(mc.call.arguments.len(), 1);
}

#[test]
fn tagged_block() {
    let Spanned { value: Statement::TaggedBlock(tb), .. } =
        parse_stmt("<CCreatureDef>\n  Health 100;\n<\\CCreatureDef>")
    else {
        panic!()
    };
    assert_eq!(tb.tag, "CCreatureDef");
    assert_eq!(tb.body.len(), 1);
}

#[test]
fn template_flag() {
    let def = parse_first_def("#definition_template OBJECT T\n#end_definition");
    assert!(def.value.is_template);
}

#[test]
fn specialises() {
    let def = parse_first_def("#definition OBJECT CHILD specialises PARENT\n  Health 50;\n#end_definition");
    assert_eq!(def.value.specializes.as_deref(), Some("PARENT"));
}

#[test]
fn end_definition_trailing_semicolon() {
    let file = parse_def_file("#definition OBJECT T\n  Health 100;\n#end_definition;").unwrap();
    assert_eq!(file.definitions.len(), 1);
}

#[test]
fn multiple_definitions_preserve_order() {
    let file = parse_def_file(
        r#"
    #definition OBJECT FIRST
    #end_definition

    #definition OBJECT SECOND
    #end_definition
    "#,
    )
    .unwrap();
    assert_eq!(file.definitions.len(), 2);
    assert_eq!(file.definitions[0].value.name, "FIRST");
    assert_eq!(file.definitions[1].value.name, "SECOND");
    assert_eq!(index_of(&file.by_name, "FIRST"), 0);
    assert_eq!(index_of(&file.by_name, "SECOND"), 1);
}

#[test]
fn line_comment_in_body() {
    let def = parse_def("// just a comment\nHealth 100;");
    assert_eq!(def.value.body.len(), 1);
}

#[test]
fn block_comment_in_body() {
    let def = parse_def("/* block comment */\nHealth 100;");
    assert_eq!(def.value.body.len(), 1);
}

#[test]
fn block_comment_inline() {
    let def = parse_def("Name /* inline */ \"Test\";");
    assert_eq!(def.value.body.len(), 1);
    let Spanned { value: Statement::Field(f), .. } = &def.value.body[0] else { panic!() };
    let Expr::String(s) = &f.expr.value else { panic!() };
    assert_eq!(s, "Test");
}

#[test]
fn block_comment_multiline() {
    let def = parse_def("/* multi\n   line\n   comment */\nHealth 100;");
    assert_eq!(def.value.body.len(), 1);
}

#[test]
fn missing_semicolon_tolerated() {
    let def = parse_def("  Health 100");
    assert_eq!(def.value.body.len(), 1);
}

#[test]
fn err_unterminated_block_comment() {
    let kind = parse_err("#definition OBJECT T\n  Health /* never closes\n#end_definition");
    assert!(matches!(kind, DefParseErrorKind::UnterminatedBlockComment));
}

#[test]
fn err_unterminated_string() {
    let kind = parse_err("#definition OBJECT T\n  Name \"no close\n#end_definition");
    assert!(matches!(kind, DefParseErrorKind::UnterminatedString));
}

#[test]
fn err_mismatched_tag() {
    let kind = parse_err("#definition OBJECT T\n  <A>\n  <\\B>\n#end_definition");
    assert!(matches!(kind, DefParseErrorKind::MismatchedTag { .. }));
}

#[test]
fn err_missing_end_definition() {
    let kind = parse_err("#definition OBJECT T\n  Health 100;\n");
    assert!(matches!(
        kind,
        DefParseErrorKind::UnexpectedToken { expected } if expected == "#end_definition"
    ));
}

#[test]
fn missing_end_definition_does_not_swallow_next_def() {
    let input = "#definition OBJECT FIRST\n  Health 100;\n#definition OBJECT SECOND\n  Health 200;\n#end_definition\n";
    let err = parse_def_file(input).unwrap_err();
    assert!(matches!(
        err.inner,
        DefParseErrorKind::UnexpectedToken { expected } if expected == "#end_definition"
    ));
    assert_eq!(err.pos, input.find("#definition OBJECT SECOND").unwrap());
}

#[test]
fn def_text_empty_file() {
    assert!(parse_def_file("").unwrap().definitions.is_empty());
}

#[test]
fn whitespace_only() {
    assert!(parse_def_file("   \n\t  \n  ").unwrap().definitions.is_empty());
}

#[test]
fn comments_only() {
    let input = "// line comment\n/* block\n   comment */\n";
    assert!(parse_def_file(input).unwrap().definitions.is_empty());
}

#[test]
fn skips_between_def_junk() {
    let input = r#"
    //#definition OBJECT COMMENTED_OUT_NEVER_PARSED
    //   Health 999;
    //#end_definition

    enum EFoo { A = 1, B = 2 };

    ****************************************

    #definition OBJECT FIRST
        Health 100;
    #end_definition

    stray_identifier;

    #definition OBJECT SECOND
        Health 200;
    #end_definition;
    "#;
    let file = parse_def_file(input).unwrap();
    assert_eq!(file.definitions.len(), 2);
    assert_eq!(file.definitions[0].value.name, "FIRST");
    assert_eq!(file.definitions[1].value.name, "SECOND");
    assert_eq!(file.headers.len(), 1);
}

// ── own tests ────────────────────────────────────────────────────────────────

#[test]
fn expr_as_i32_and_rendering() {
    assert_eq!(parse_expr("42").value.as_i32(), Some(42));
    assert_eq!(parse_expr("-7").value.as_i32(), Some(-7));
    assert_eq!(parse_expr("4.2").value.as_i32(), None);
    assert_eq!(parse_expr("FOO").value.as_i32(), None);
    assert_eq!(parse_expr("A | B + 1").value.to_string(), "A | B + 1");
    assert_eq!(parse_expr("CRGBColour(1, 2)").value.to_string(), "CRGBColour(1, 2)");
    assert_eq!(parse_expr("\"x\"").value.to_string(), "\"x\"");
}

#[test]
fn property_path_rendering() {
    assert_eq!(parse_path("Time[0].SkyTexture0").to_string(), "Time[0].SkyTexture0");
    let p = PropertyPath::simple("Health".to_string());
    assert_eq!(p.segments.len(), 1);
    assert_eq!(p.to_string(), "Health");
}

#[test]
fn duplicate_definition_names_index_the_last() {
    let file = parse_def_file("#definition OBJECT A\n#end_definition\n#definition OBJECT A\n#end_definition").unwrap();
    assert_eq!(file.definitions.len(), 2);
    assert_eq!(file.by_name.len(), 1);
    assert_eq!(index_of(&file.by_name, "A"), 1);
}

#[test]
fn def_error_messages() {
    let k = parse_err("#definition OBJECT T\n  <A>\n  <\\B>\n#end_definition");
    assert_eq!(k.to_string(), "mismatched tag: opened <A>, closed <\\B>");
    let k = parse_err("#definition OBJECT T\n  Health 100;\n");
    assert_eq!(k.to_string(), "expected #end_definition");
    assert_eq!(DefParseErrorKind::UnterminatedString.to_string(), "unterminated string");
}

#[test]
fn lex_error_leaves_only_end_of_input() {
    let input = "\"unterminated";
    let err = DefParser::new(input).parse_expr().unwrap_err();
    assert_eq!(err.pos, input.len());
    assert!(matches!(
        err.inner,
        DefParseErrorKind::UnexpectedToken { expected } if expected == "expression, found end of input"
    ));
}
