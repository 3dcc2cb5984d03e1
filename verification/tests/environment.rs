use fable_data::environment::{EnvironmentConfig, EnvironmentParseError, EnvironmentTheme, TimeKeyframe};

const ENVIRONMENT: &str = "
#definition ENVIRONMENT_THEME_DAY THEME_SUNNY
    Time[2].TimeOfDay 12.0;
    Time[2].SkyTexture0 SKY_NOON;
    Time[0].TimeOfDay 0;
    Time[0].SkyTexture0 SKY_NIGHT;
    Time[0].MoonLit TRUE;
    Time[1].TimeOfDay 6.5f;
    Time[1].SkyTexture0 SKY_DAWN;
    Time[1].SkyTexture1 SKY_NIGHT;
    Time[1].SkyTexture1Blend 0.25;
    Time[1].FogStartZ 10;
    Time[1].FogEndZ 200.0;
    Time[1].Unknown 3;
    Time[0].TimeOfDay SKY_NIGHT;
    Other 4;
#end_definition

#definition ENVIRONMENT_THEME_NIGHT THEME_NOT_A_DAY
    Time[0].TimeOfDay 1.0;
#end_definition

#definition ENVIRONMENT_THEME_DAY THEME_EMPTY
#end_definition

#definition ENVIRONMENT_THEME_DAY THEME_SUNNY
    Time[5].SkyTexture0 SKY_LATE;
#end_definition
";

fn text(s: &str) -> Option<String> {
    Some(s.to_string())
}

#[test]
fn day_themes_with_sorted_keyframes() {
    let config = EnvironmentConfig::parse(ENVIRONMENT).unwrap();
    assert_eq!(config.themes.len(), 2);
    assert_eq!(config.themes[0].name, "THEME_SUNNY");
    assert_eq!(config.themes[1].name, "THEME_EMPTY");
    assert!(config.theme("THEME_NOT_A_DAY").is_none());
    assert!(config.themes[1].keyframes.is_empty());
    // The last definition of a name gives its theme.
    let sunny = config.theme("THEME_SUNNY").unwrap();
    assert_eq!(sunny.keyframes.len(), 1);
    assert_eq!(sunny.keyframes[0].sky_texture_0, text("SKY_LATE"));
}

#[test]
fn keyframe_properties() {
    let source = ENVIRONMENT.split("#definition ENVIRONMENT_THEME_NIGHT").next().unwrap();
    let config = EnvironmentConfig::parse(source).unwrap();
    let theme = &config.themes[0];
    assert_eq!(theme.keyframes.len(), 3);
    let k0 = &theme.keyframes[0];
    assert_eq!(k0.time_of_day, text("0"));
    assert_eq!(k0.sky_texture_0, text("SKY_NIGHT"));
    assert!(k0.moon_lit);
    let k1 = &theme.keyframes[1];
    assert_eq!(
        *k1,
        TimeKeyframe {
            time_of_day: text("6.5f"),
            sky_texture_0: text("SKY_DAWN"),
            sky_texture_1: text("SKY_NIGHT"),
            sky_texture_1_blend: text("0.25"),
            moon_lit: false,
            fog_start_z: text("10"),
            fog_end_z: text("200.0"),
        }
    );
    assert_eq!(theme.keyframes[2].time_of_day, text("12.0"));
    assert_eq!(theme.sky_texture_names(), vec!["SKY_NIGHT", "SKY_DAWN", "SKY_NOON"]);
}

#[test]
fn default_keyframe() {
    let k = TimeKeyframe::default();
    assert_eq!(k.time_of_day, None);
    assert!(!k.moon_lit);
    let theme = EnvironmentTheme { name: "empty".to_string(), keyframes: Vec::new() };
    assert!(theme.sky_texture_names().is_empty());
}

#[test]
fn bad_def_text() {
    match EnvironmentConfig::parse("#definition ENVIRONMENT_THEME_DAY X\n Time[0].TimeOfDay \"open") {
        Err(e @ EnvironmentParseError::Def(_)) => assert!(e.to_string().starts_with("def parse error: ")),
        Ok(_) => panic!("expected a parse error"),
    }
}
