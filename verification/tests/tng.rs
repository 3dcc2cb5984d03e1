use fable_data::tng::Tng;

fn number_value(text: &str) -> f32 {
    text.parse().unwrap_or(0.0)
}

fn values(v: &[String; 3]) -> [f32; 3] {
    [number_value(&v[0]), number_value(&v[1]), number_value(&v[2])]
}

#[test]
fn parse_blank_tng() {
    let input = r#"Version 2;
XXXSectionStart NULL;
NewThing Marker;
Player 4;
UID 18446741874686301490;
DefinitionType "MARKER_BASIC";
ThingGamePersistent FALSE;
ThingLevelPersistent FALSE;
StartCTCPhysicsStandard;
PositionX 10.0;
PositionY 20.0;
PositionZ 30.0;
RHSetForwardX 1.0;
RHSetForwardY 0.0;
RHSetForwardZ 0.0;
RHSetUpX 0.0;
RHSetUpY 0.0;
RHSetUpZ 1.0;
EndCTCPhysicsStandard;
StartCTCEditor;
EndCTCEditor;
Health 1.0;
EndThing;
XXXSectionEnd;
"#;
    let tng = Tng::parse(input).unwrap();
    assert_eq!(tng.sections.len(), 1);
    assert_eq!(tng.sections[0].name, "NULL");
    assert_eq!(tng.sections[0].things.len(), 1);

    let t = &tng.sections[0].things[0];
    assert_eq!(t.definition_type, "MARKER_BASIC");
    assert_eq!(values(&t.position), [10.0, 20.0, 30.0]);
    assert_eq!(values(&t.forward), [1.0, 0.0, 0.0]);
    assert_eq!(values(&t.up), [0.0, 0.0, 1.0]);
}

#[test]
fn parse_things_without_sections() {
    let input = r#"NewThing Object;
Player -1;
UID 123;
DefinitionType "OBJECT_FISHING_ROD";
EndThing;
NewThing Marker;
Player -1;
UID 456;
DefinitionType "MARKER_BASIC";
EndThing;
"#;
    let tng = Tng::parse(input).unwrap();
    assert_eq!(tng.sections.len(), 1);
    assert_eq!(tng.sections[0].things.len(), 2);
    assert_eq!(tng.sections[0].things[0].definition_type, "OBJECT_FISHING_ROD");
    assert_eq!(tng.sections[0].things[1].definition_type, "MARKER_BASIC");
}

// ── own tests ────────────────────────────────────────────────────────────────

#[test]
fn thing_fields() {
    let input = "NewThing Creature;\nPlayer abc;\nUID 99999999999999999999;\nScriptName HERO_1;\nScriptData \"x y\";\nHealth 0.5;\nObjectScale 2;\nThingGamePersistent TRUE;\nPositionX 5.0;\nStartCTCPhysicsStandard;\nPositionY Foo;\nRHSetUpZ -3;\nEndThing;";
    let tng = Tng::parse(input).unwrap();
    let t = &tng.sections[0].things[0];
    assert_eq!(tng.sections[0].name, "");
    assert_eq!(t.thing_type, "Creature");
    assert_eq!(t.player, 0);
    assert_eq!(t.uid, 0);
    assert_eq!(t.script_name.as_deref(), Some("HERO_1"));
    assert_eq!(t.script_data.as_deref(), Some("x y"));
    assert_eq!(t.health.as_deref(), Some("0.5"));
    assert_eq!(t.object_scale.as_deref(), Some("2"));
    assert!(t.game_persistent);
    assert!(!t.level_persistent);
    // Outside the physics section coordinates are not read; inside, a
    // value that is no number reads as zero.
    assert_eq!(values(&t.position), [0.0, 0.0, 0.0]);
    assert_eq!(t.position[1], "");
    assert_eq!(values(&t.up), [0.0, 0.0, -3.0]);
}

#[test]
fn sections_in_order_and_unparsable_player() {
    let input = "XXXSectionStart A;\nNewThing T1;\nPlayer 99999999999;\nEndThing;\nXXXSectionEnd;\nXXXSectionStart B;\nXXXSectionEnd;\nNewThing T2;\nEndThing;";
    let tng = Tng::parse(input).unwrap();
    assert_eq!(tng.sections.len(), 2);
    assert_eq!(tng.sections[0].name, "A");
    assert_eq!(tng.sections[0].things[0].player, -1);
    assert_eq!(tng.sections[1].name, "B");
    assert_eq!(tng.sections[1].things.len(), 1);
    assert_eq!(tng.sections[1].things[0].thing_type, "T2");
}

#[test]
fn tng_error() {
    assert!(Tng::parse("NewThing X;\nPlayer 1").is_err());
}
