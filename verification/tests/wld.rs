use fable_data::kv::{KvErrorKind, KvParser, KvStatement, KvValue};
use fable_data::wld::{KvValueOwned, Wld};

#[test]
fn parse_wld() {
    let input = r#"MapUIDCount 72;
ThingManagerUIDCount 1;
NewMap 1;
MapX 3232;
MapY 3488;
LevelName "FinalAlbion\LookoutPoint.lev";
LevelScriptName "LookoutPoint";
MapUID 162441;
IsSea FALSE;
LoadedOnPlayerProximity TRUE;
EndMap;
NewMap 2;
MapX 3104;
MapY 3520;
LevelName "FinalAlbion\PicnicArea.lev";
LevelScriptName "PicnicArea";
MapUID 163625;
IsSea FALSE;
LoadedOnPlayerProximity TRUE;
EndMap;
"#;
    let wld = Wld::parse(input).unwrap();
    assert_eq!(wld.maps.len(), 2);
    assert_eq!(wld.maps[0].map_number, 1);
    assert_eq!(wld.maps[0].map_x, 3232);
    assert_eq!(wld.maps[0].level_name, "FinalAlbion\\LookoutPoint.lev");
    assert_eq!(wld.maps[0].is_sea, false);
    assert_eq!(wld.maps[0].loaded_on_proximity, true);

    assert_eq!(wld.maps[1].map_number, 2);
    assert_eq!(wld.maps[1].level_script_name, "PicnicArea");
}

// ── own tests ────────────────────────────────────────────────────────────────

#[test]
fn wld_header_and_defaults() {
    let wld = Wld::parse("MapUIDCount 72;\nNewMap X;\nMapX -5;\nMapUID 18446744073709551615;\nMapY abc;\nEndMap;\nNewRegion R;\nEndRegion;\n").unwrap();
    assert_eq!(wld.header_stmts.len(), 1);
    assert_eq!(wld.header_stmts[0].0, "MapUIDCount");
    assert_eq!(wld.header_stmts[0].1, KvValueOwned::Number("72".to_string()));
    assert_eq!(wld.maps.len(), 1);
    assert_eq!(wld.maps[0].map_number, 0);
    assert_eq!(wld.maps[0].map_x, -5);
    assert_eq!(wld.maps[0].map_y, 0);
    assert_eq!(wld.maps[0].map_uid, u64::MAX);
    assert_eq!(wld.maps[0].level_name, "");
}

#[test]
fn wld_number_out_of_range_is_zero() {
    let wld = Wld::parse("NewMap 4294967296;\nMapX 2147483648;\nLevelScriptName Ident_1;\nEndMap;").unwrap();
    assert_eq!(wld.maps[0].map_number, 0);
    assert_eq!(wld.maps[0].map_x, 0);
    assert_eq!(wld.maps[0].level_script_name, "Ident_1");
}

#[test]
fn kv_fields_blocks_and_comments() {
    let input = "// header\nVersion 2;\nXXXSectionStart Things;\n/* block\ncomment */ NewThing Obj;\n  StartCTCPhysicsStandard;\n  PositionX 1.5e-3;\n  Name \"a b\";\n  Flag TRUE;\n  Other Thing_2;\nEndThing;\nXXXSectionEnd;\nTrailing 1;";
    let mut p = KvParser::new(input);
    let stmts = p.parse_statements().unwrap();
    assert_eq!(stmts.len(), 3);
    assert!(matches!(stmts[0], KvStatement::Field("Version", KvValue::Number("2"))));
    assert!(matches!(stmts[2], KvStatement::Field("Trailing", KvValue::Number("1"))));
    let KvStatement::Block { keyword, kind, body } = &stmts[1] else { panic!() };
    assert_eq!(*keyword, "XXXSectionStart");
    assert_eq!(*kind, "Things");
    assert_eq!(body.len(), 1);
    let KvStatement::Block { keyword, kind, body } = &body[0] else { panic!() };
    assert_eq!(*keyword, "NewThing");
    assert_eq!(*kind, "Obj");
    assert_eq!(body.len(), 5);
    assert!(matches!(body[0], KvStatement::Field("StartCTCPhysicsStandard", KvValue::Ident(""))));
    assert!(matches!(body[1], KvStatement::Field("PositionX", KvValue::Number("1.5e-3"))));
    assert!(matches!(body[2], KvStatement::Field("Name", KvValue::String("a b"))));
    assert!(matches!(body[3], KvStatement::Field("Flag", KvValue::Bool(true))));
    assert!(matches!(body[4], KvStatement::Field("Other", KvValue::Ident("Thing_2"))));
    assert!(p.is_eof());
    assert_eq!(p.rest(), "");
}

#[test]
fn kv_top_level_section_end_stops() {
    let mut p = KvParser::new("A 1;\nXXXSectionEnd;\nB 2;");
    let stmts = p.parse_statements().unwrap();
    assert_eq!(stmts.len(), 1);
    assert!(!p.is_eof());
    assert_eq!(p.rest(), ";\nB 2;");
}

#[test]
fn kv_errors_carry_lines() {
    let err = KvParser::new("A 1;\n\nB 2").parse_statements().unwrap_err();
    assert_eq!(err.line, 3);
    assert!(matches!(err.inner, KvErrorKind::ExpectedSemicolon));
    assert_eq!(err.to_string(), "parse error at line 3: expected semicolon");

    let err = KvParser::new("Name \"open").parse_statements().unwrap_err();
    assert!(matches!(err.inner, KvErrorKind::UnterminatedString));

    let err = KvParser::new("NewThing;").parse_statements().unwrap_err();
    assert!(matches!(err.inner, KvErrorKind::UnexpectedEnd));

    let err = KvParser::new("Name ;;\r\n").parse_statements().unwrap_err();
    assert_eq!(err.line, 1);
    assert!(matches!(err.inner, KvErrorKind::UnexpectedEnd));

    let err = KvParser::new("X\r\n\r\n@;").parse_statements().unwrap_err();
    assert_eq!(err.line, 3);
    assert!(matches!(err.inner, KvErrorKind::UnexpectedEnd));
    assert_eq!(err.inner.to_string(), "unexpected end of input");
}

#[test]
fn kv_unterminated_block_ends_at_input_end() {
    let mut p = KvParser::new("NewMap 1;\nMapX 3;");
    let stmts = p.parse_statements().unwrap();
    let KvStatement::Block { body, .. } = &stmts[0] else { panic!() };
    assert_eq!(body.len(), 1);
}

#[test]
fn kv_true_prefix_is_an_identifier() {
    let stmts = KvParser::new("A TRUEISH;\nB false;\nC False;").parse_statements().unwrap();
    assert!(matches!(stmts[0], KvStatement::Field("A", KvValue::Ident("TRUEISH"))));
    assert!(matches!(stmts[1], KvStatement::Field("B", KvValue::Ident("false"))));
    assert!(matches!(stmts[2], KvStatement::Field("C", KvValue::Ident("False"))));
}
