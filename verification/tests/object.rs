use fable_data::def::object::{ObjectDefs, ObjectGraphicType};

#[test]
fn resolve_simple_object() {
    let input = r#"#definition OBJECT OBJECT_TEST
    Graphic.Type ENGINE_GRAPHIC_STATIC_MESH;
    Graphic.BankIndex MESH_MARKER_01;
#end_definition
"#;
    let defs = ObjectDefs::parse(input).unwrap();
    let g = defs.resolve("OBJECT_TEST").unwrap();
    assert_eq!(g.mesh_symbol, Some("MESH_MARKER_01".into()));
    assert_eq!(g.graphic_type, ObjectGraphicType::StaticMesh);
}

#[test]
fn resolve_with_inheritance() {
    let input = r#"#definition_template OBJECT OBJECT_TEMPLATE_TEST
    Graphic.Type ENGINE_GRAPHIC_STATIC_MESH;
    Material MATERIAL_WOOD;
#end_definition

#definition OBJECT OBJECT_CHILD_TEST specialises OBJECT_TEMPLATE_TEST
    Graphic.BankIndex MESH_BARREL_05;
#end_definition
"#;
    let defs = ObjectDefs::parse(input).unwrap();
    let g = defs.resolve("OBJECT_CHILD_TEST").unwrap();
    assert_eq!(g.mesh_symbol, Some("MESH_BARREL_05".into()));
    assert_eq!(g.graphic_type, ObjectGraphicType::StaticMesh);
}

// ── own tests ────────────────────────────────────────────────────────────────

#[test]
fn resolve_unknown_name_is_none() {
    let defs = ObjectDefs::parse("#definition OBJECT A\n#end_definition").unwrap();
    assert!(defs.resolve("B").is_none());
    let g = defs.resolve("A").unwrap();
    assert_eq!(g.mesh_symbol, None);
    assert_eq!(g.graphic_type, ObjectGraphicType::Null);
}

#[test]
fn leaf_value_overrides_root() {
    let input = "#definition OBJECT ROOT\n Graphic.Type ENGINE_GRAPHIC_SPRITE;\n Graphic.BankIndex MESH_ROOT;\n#end_definition\n#definition OBJECT LEAF specialises ROOT\n Graphic.Type ENGINE_GRAPHIC_ANIMATING_MESH;\n Graphic.BankIndex \"\";\n#end_definition\n";
    let defs = ObjectDefs::parse(input).unwrap();
    let g = defs.resolve("LEAF").unwrap();
    // The leaf's own properties override the root's: an empty bank index
    // reads as no mesh.
    assert_eq!(g.graphic_type, ObjectGraphicType::AnimatedMesh);
    assert_eq!(g.mesh_symbol, None);
    let root = defs.resolve("ROOT").unwrap();
    assert_eq!(root.graphic_type, ObjectGraphicType::Sprite);
    assert_eq!(root.mesh_symbol, Some("MESH_ROOT".into()));
}

#[test]
fn leaf_mesh_overrides_parent_mesh() {
    let defs = ObjectDefs::parse("#definition OBJECT P\n Graphic.BankIndex MESH_A;\n#end_definition\n#definition OBJECT C specialises P\n Graphic.BankIndex MESH_B;\n#end_definition").unwrap();
    let c = defs.resolve("C").unwrap();
    assert_eq!(c.mesh_symbol, Some("MESH_B".into()));
    assert_eq!(c.graphic_type, ObjectGraphicType::Null);
    assert_eq!(defs.resolve("P").unwrap().mesh_symbol, Some("MESH_A".into()));
    assert_eq!(defs.resolve_checked("C"), Some(c));
}

#[test]
fn cyclic_chain_is_refused() {
    let defs = ObjectDefs::parse("#definition OBJECT A specialises B\n#end_definition\n#definition OBJECT B specialises A\n#end_definition\n#definition OBJECT D specialises A\n#end_definition").unwrap();
    assert_eq!(defs.resolve_checked("A"), None);
    assert_eq!(defs.resolve_checked("D"), None);
    assert_eq!(defs.resolve_checked("E"), None);
}

#[test]
fn missing_parent_and_unknown_type() {
    let input = "#definition OBJECT X specialises NOT_THERE\n Graphic.Type SOMETHING_ELSE;\n Graphic.BankIndex CMesh(1, 2);\n#end_definition";
    let defs = ObjectDefs::parse(input).unwrap();
    let g = defs.resolve("X").unwrap();
    assert_eq!(g.graphic_type, ObjectGraphicType::Unknown);
    assert_eq!(g.mesh_symbol, Some("CMesh".into()));
}

#[test]
fn parse_error_is_reported() {
    assert!(ObjectDefs::parse("#definition OBJECT X\n").is_err());
}
