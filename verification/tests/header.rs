use fable_data::def::text::header::{parse_header_file, EnumExpr, Header, HeaderItem, TextParseErrorKind};

fn parse_h(input: &str) -> Header {
    parse_header_file(input).expect("header parse ok")
}

fn parse_h_err(input: &str) -> TextParseErrorKind {
    parse_header_file(input).unwrap_err().inner
}

#[test]
fn header_empty_file() {
    let h = parse_h("");
    assert!(h.items.is_empty());
}

#[test]
fn just_include_guard() {
    let h = parse_h("#pragma once\n#ifndef __FOO_H__\n#define __FOO_H__\n#endif");
    assert!(h.items.is_empty());
}

#[test]
fn named_enum() {
    let h = parse_h("enum EFoo { A = 1, B = 2 };");
    assert_eq!(h.items.len(), 1);
    let HeaderItem::Enum(decl) = &h.items[0] else { panic!() };
    assert_eq!(decl.name.as_deref(), Some("EFoo"));
    assert_eq!(decl.variants.len(), 2);
    assert_eq!(decl.variants[0].name, "A");
    assert!(matches!(decl.variants[0].value, Some(EnumExpr::Int(1))));
    assert_eq!(decl.variants[1].name, "B");
    assert!(matches!(decl.variants[1].value, Some(EnumExpr::Int(2))));
}

#[test]
fn anonymous_enum() {
    let h = parse_h("enum { A = 1, B = 2 };");
    let HeaderItem::Enum(decl) = &h.items[0] else { panic!() };
    assert!(decl.name.is_none());
    assert_eq!(decl.variants.len(), 2);
}

#[test]
fn auto_increment() {
    let h = parse_h("enum EFoo { A = 1, B, C = 5, D };");
    let HeaderItem::Enum(decl) = &h.items[0] else { panic!() };
    assert!(matches!(decl.variants[0].value, Some(EnumExpr::Int(1))));
    assert!(decl.variants[1].value.is_none()); // B = 2 (auto)
    assert!(matches!(decl.variants[2].value, Some(EnumExpr::Int(5))));
    assert!(decl.variants[3].value.is_none()); // D = 6 (auto)
}

#[test]
fn enum_with_ident_value() {
    let h = parse_h("enum EFoo { A = NO_SOUND_TYPES };");
    let HeaderItem::Enum(decl) = &h.items[0] else { panic!() };
    assert!(matches!(
        &decl.variants[0].value,
        Some(EnumExpr::Ident(s)) if s == "NO_SOUND_TYPES"
    ));
}

#[test]
fn enum_with_bitor_expression() {
    let h = parse_h("enum EFoo { A = 1 | 2 | 4 };");
    let HeaderItem::Enum(decl) = &h.items[0] else { panic!() };
    assert!(matches!(&decl.variants[0].value, Some(EnumExpr::BitOr(terms)) if terms.len() == 3));
}

#[test]
fn enum_with_shift_expression() {
    let h = parse_h("enum EFoo { A = 1 << 0, B = 1 << 1 };");
    let HeaderItem::Enum(decl) = &h.items[0] else { panic!() };
    assert!(matches!(&decl.variants[0].value, Some(EnumExpr::Shift(terms)) if terms.len() == 2));
}

#[test]
fn enum_trailing_comma() {
    let h = parse_h("enum EFoo { A = 1, B = 2, };");
    let HeaderItem::Enum(decl) = &h.items[0] else { panic!() };
    assert_eq!(decl.variants.len(), 2);
}

#[test]
fn enum_no_trailing_semicolon() {
    let h = parse_h("enum EFoo { A = 1 }");
    assert_eq!(h.items.len(), 1);
}

#[test]
fn define_positive() {
    let h = parse_h("#define FOO 42");
    let HeaderItem::Define(d) = &h.items[0] else { panic!() };
    assert_eq!(d.name, "FOO");
    assert_eq!(d.value, 42);
}

#[test]
fn define_negative() {
    let h = parse_h("#define FOO -42");
    let HeaderItem::Define(d) = &h.items[0] else { panic!() };
    assert_eq!(d.value, -42);
}

#[test]
fn namespace_with_enums() {
    let h = parse_h("namespace NFoo { enum EA { X = 1 }; }");
    let HeaderItem::Namespace(ns) = &h.items[0] else { panic!() };
    assert_eq!(ns.name, "NFoo");
    assert_eq!(ns.items.len(), 1);
}

#[test]
fn ifdef_with_else() {
    let h = parse_h("#ifdef _WINDOWS\n#define FOO 1\n#else\n#define FOO 2\n#endif");
    let HeaderItem::IfDef(ifdef) = &h.items[0] else { panic!() };
    assert_eq!(ifdef.condition, "_WINDOWS");
    assert_eq!(ifdef.if_branch.len(), 1);
    assert_eq!(ifdef.else_branch.as_ref().unwrap().len(), 1);
    assert!(!ifdef.inverted);
}

#[test]
fn ifndef_as_item() {
    // Put `#ifndef` after a namespace so it's not consumed by the prologue.
    let h = parse_h("namespace N { #ifndef _WINDOWS\n#define FOO 1\n#endif }");
    let HeaderItem::Namespace(ns) = &h.items[0] else { panic!() };
    assert_eq!(ns.items.len(), 1);
    let HeaderItem::IfDef(ifdef) = &ns.items[0] else { panic!() };
    assert!(ifdef.inverted);
    assert_eq!(ifdef.if_branch.len(), 1);
}

#[test]
fn full_header_file() {
    let h = parse_h(
        "#pragma once\n\
         #ifndef __FOO_H__\n\
         #define __FOO_H__\n\
         #define MAX_THINGS 100\n\
         enum EFoo { A = 1, B = 2 };\n\
         #endif",
    );
    // Prologue consumed: #pragma, #ifndef, #define. Items: MAX_THINGS, EFoo.
    assert_eq!(h.items.len(), 2);
}

#[test]
fn file_with_no_guard() {
    let h = parse_h("#define FOO 1\nenum EBar { A };\n");
    assert_eq!(h.items.len(), 2);
}

// --- error cases ---

#[test]
fn err_unterminated_enum() {
    let kind = parse_h_err("enum EFoo { A = 1");
    assert!(matches!(kind, TextParseErrorKind::UnexpectedToken { .. }));
}

#[test]
fn err_unterminated_enum_eof_after_comma() {
    // EOF after a comma is a genuine UnterminatedEnum.
    let kind = parse_h_err("enum EFoo { A = 1,");
    assert!(matches!(kind, TextParseErrorKind::UnterminatedEnum));
}

#[test]
fn err_unterminated_namespace() {
    let kind = parse_h_err("namespace NFoo { enum EA { X = 1 };");
    assert!(matches!(kind, TextParseErrorKind::UnterminatedNamespace));
}

#[test]
fn err_unterminated_ifdef() {
    let kind = parse_h_err("#ifdef _WINDOWS\n#define FOO 1\n");
    assert!(matches!(kind, TextParseErrorKind::UnterminatedIfDef));
}

#[test]
fn err_unknown_item() {
    let kind = parse_h_err("foo bar");
    assert!(matches!(kind, TextParseErrorKind::UnknownItem));
}

#[test]
fn err_expected_number_in_define() {
    let kind = parse_h_err("#define FOO abc");
    assert!(matches!(kind, TextParseErrorKind::UnexpectedToken { .. }));
}

#[test]
fn stray_guard_name_after_endif_consumed() {
    // `#endif __GUARD__` (no `//`) is consumed by the epilogue, matching
    // the old parser's `skip_to_end_of_line`.
    let h = parse_h("#define FOO 1\n#endif __GUARD_NAME__");
    assert_eq!(h.items.len(), 1); // FOO
}

