//! Environment and sky configuration read from `environment.def`: for each
//! `ENVIRONMENT_THEME_DAY` definition, its time-of-day keyframes, taken from
//! the `Time[i].Property = value` fields of its body.
//!
//! Real-valued properties (the time of day, the second sky texture's blend,
//! the fog distances) are kept as the number text the def gives; a property
//! that no field sets keeps its default (`None`, meaning zero).

use vstd::prelude::*;
use vstd::string::StringSliceAdditionalSpecFns;

use crate::bytes::str_eq;
use crate::def::text::def_text::{
    def_err_message, derr_matches, derr_v, def_file_m, file_matches, int_value, parse_def_file, DefFile,
    DefParseError, Definition, Expr,
    PathSegment, Statement,
};
use crate::def::text::base::Spanned;

verus! {

/// The settings of one keyframe of a day theme.
#[derive(Debug, Clone, PartialEq)]
pub struct TimeKeyframe {
    /// The hour it applies from, as number text.
    pub time_of_day: Option<String>,
    pub sky_texture_0: Option<String>,
    pub sky_texture_1: Option<String>,
    /// The blend of the second sky texture, as number text.
    pub sky_texture_1_blend: Option<String>,
    pub moon_lit: bool,
    /// Where the fog starts, as number text.
    pub fog_start_z: Option<String>,
    /// Where the fog is full, as number text.
    pub fog_end_z: Option<String>,
}

/// A keyframe with every property at its default.
pub open spec fn default_keyframe() -> TimeKeyframe {
    TimeKeyframe {
        time_of_day: None,
        sky_texture_0: None,
        sky_texture_1: None,
        sky_texture_1_blend: None,
        moon_lit: false,
        fog_start_z: None,
        fog_end_z: None,
    }
}

impl Default for TimeKeyframe {
    fn default() -> (r: TimeKeyframe)
        ensures
            r == default_keyframe(),
    {
        TimeKeyframe {
            time_of_day: None,
            sky_texture_0: None,
            sky_texture_1: None,
            sky_texture_1_blend: None,
            moon_lit: false,
            fog_start_z: None,
            fog_end_z: None,
        }
    }
}

/// One day theme: its name and its keyframes in ascending keyframe index.
#[derive(Debug, Clone)]
pub struct EnvironmentTheme {
    pub name: String,
    pub keyframes: Vec<TimeKeyframe>,
}

/// The day themes of an `environment.def`, at most one of each name.
#[derive(Debug, Clone)]
pub struct EnvironmentConfig {
    pub themes: Vec<EnvironmentTheme>,
}

/// Why an `environment.def` could not be read.
#[derive(Debug)]
pub enum EnvironmentParseError {
    Def(DefParseError),
}

// ── the model ─────────────────────────────────────────────────────────────────

/// `k` with the property `prop` set from `e`, where `e` has the kind the
/// property takes (a number, a symbol or a bool); `k` unchanged otherwise.
pub open spec fn with_property(k: TimeKeyframe, prop: Seq<char>, e: Expr) -> TimeKeyframe {
    if prop == "TimeOfDay"@ {
        match e {
            Expr::Number(t) => TimeKeyframe { time_of_day: Some(t), ..k },
            _ => k,
        }
    } else if prop == "SkyTexture0"@ {
        match e {
            Expr::Symbol(s) => TimeKeyframe { sky_texture_0: Some(s), ..k },
            _ => k,
        }
    } else if prop == "SkyTexture1"@ {
        match e {
            Expr::Symbol(s) => TimeKeyframe { sky_texture_1: Some(s), ..k },
            _ => k,
        }
    } else if prop == "SkyTexture1Blend"@ {
        match e {
            Expr::Number(t) => TimeKeyframe { sky_texture_1_blend: Some(t), ..k },
            _ => k,
        }
    } else if prop == "MoonLit"@ {
        match e {
            Expr::Bool(b) => TimeKeyframe { moon_lit: b, ..k },
            _ => k,
        }
    } else if prop == "FogStartZ"@ {
        match e {
            Expr::Number(t) => TimeKeyframe { fog_start_z: Some(t), ..k },
            _ => k,
        }
    } else if prop == "FogEndZ"@ {
        match e {
            Expr::Number(t) => TimeKeyframe { fog_end_z: Some(t), ..k },
            _ => k,
        }
    } else {
        k
    }
}

/// The keyframe index, property name and value of a `Time[i].Property = value`
/// field (further path segments are ignored); `None` for any other
/// statement.
pub open spec fn time_field(st: Statement) -> Option<(i32, Seq<char>, Expr)> {
    match st {
        Statement::Field(f) => {
            let segs = f.path.segments@;
            if segs.len() >= 3 {
                match (segs[0], segs[1], segs[2]) {
                    (PathSegment::Field(n), PathSegment::Index(ix), PathSegment::Field(p)) => if n@ == "Time"@ {
                        match int_value(ix.value) {
                            Some(i) => Some((i, p@, f.expr.value)),
                            None => None,
                        }
                    } else {
                        None
                    },
                    _ => None,
                }
            } else {
                None
            }
        },
        _ => None,
    }
}

/// The first position from `j` on in `s` whose index is at least `i`.
pub open spec fn lower_bound(s: Seq<(i32, TimeKeyframe)>, i: i32, j: int) -> int
    decreases s.len() - j,
{
    if j < 0 || j >= s.len() || s[j].0 >= i {
        j
    } else {
        lower_bound(s, i, j + 1)
    }
}

/// `s` with the property set on the keyframe of index `i`, a default
/// keyframe being put in its place among the indices first when there is
/// none.
pub open spec fn upsert(s: Seq<(i32, TimeKeyframe)>, i: i32, prop: Seq<char>, e: Expr) -> Seq<(i32, TimeKeyframe)> {
    let p = lower_bound(s, i, 0);
    if p < s.len() && s[p].0 == i {
        s.update(p, (i, with_property(s[p].1, prop, e)))
    } else {
        s.insert(p, (i, with_property(default_keyframe(), prop, e)))
    }
}

/// The keyframes set by the first `n` statements of `body`, with their
/// indices.
pub open spec fn keyframes_m(body: Seq<Spanned<Statement>>, n: nat) -> Seq<(i32, TimeKeyframe)>
    decreases n,
{
    if n == 0 || n > body.len() {
        Seq::empty()
    } else {
        let s = keyframes_m(body, (n - 1) as nat);
        match time_field(body[n - 1].value) {
            Some((i, p, e)) => upsert(s, i, p, e),
            None => s,
        }
    }
}

/// Whether the indices of `s` strictly ascend.
pub open spec fn ascending(s: Seq<(i32, TimeKeyframe)>) -> bool {
    forall|a: int, b: int| 0 <= a < b < s.len() ==> s[a].0 < s[b].0
}

/// The theme that a day theme definition gives: its name and its keyframes
/// in ascending index.
pub open spec fn theme_from(d: Definition, t: EnvironmentTheme) -> bool {
    &&& t.name@ == d.name@
    &&& t.keyframes@ == keyframes_m(d.body@, d.body@.len()).map_values(|p: (i32, TimeKeyframe)| p.1)
}

/// Whether `d` is a day theme definition.
pub open spec fn is_day_theme(d: Definition) -> bool {
    d.def_type@ == "ENVIRONMENT_THEME_DAY"@
}

/// The first position from `k` on in `m` that holds the name `name`.
pub open spec fn name_pos(m: Seq<(Seq<char>, int)>, name: Seq<char>, k: int) -> Option<int>
    decreases m.len() - k,
{
    if k < 0 || k >= m.len() {
        None
    } else if m[k].0 == name {
        Some(k)
    } else {
        name_pos(m, name, k + 1)
    }
}

/// The theme names of the first `n` definitions of `defs`, each with the
/// definition that gives its theme: names in the order they first come, the
/// last day theme definition of a name giving its theme.
pub open spec fn themes_m(defs: Seq<Spanned<Definition>>, n: nat) -> Seq<(Seq<char>, int)>
    decreases n,
{
    if n == 0 || n > defs.len() {
        Seq::empty()
    } else {
        let m = themes_m(defs, (n - 1) as nat);
        let d = defs[n - 1].value;
        if !is_day_theme(d) {
            m
        } else {
            match name_pos(m, d.name@, 0) {
                Some(k) => m.update(k, (d.name@, n - 1)),
                None => m.push((d.name@, n - 1)),
            }
        }
    }
}

/// The first position from `k` on in `themes` of a theme named `name`.
pub open spec fn theme_pos(themes: Seq<EnvironmentTheme>, name: Seq<char>, k: int) -> Option<int>
    decreases themes.len() - k,
{
    if k < 0 || k >= themes.len() {
        None
    } else if themes[k].name@ == name {
        Some(k)
    } else {
        theme_pos(themes, name, k + 1)
    }
}

/// Whether `themes` holds the themes that `defs` gives, in the order of
/// [`themes_m`].
pub open spec fn config_from(defs: Seq<Spanned<Definition>>, themes: Seq<EnvironmentTheme>) -> bool {
    let m = themes_m(defs, defs.len());
    &&& themes.len() == m.len()
    &&& forall|k: int| 0 <= k < m.len() ==> theme_from(defs[m[k].1].value, #[trigger] themes[k])
}


// ── keyframes ─────────────────────────────────────────────────────────────────

/// Sets the property `prop` of `keyframe` from `expr` (see [`with_property`]).
fn set_keyframe_property(keyframe: &mut TimeKeyframe, prop: &str, expr: &Expr)
    ensures
        *final(keyframe) == with_property(*old(keyframe), prop@, *expr),
{
    if str_eq(prop, "TimeOfDay") {
        if let Expr::Number(t) = expr {
            keyframe.time_of_day = Some(t.clone());
        }
    } else if str_eq(prop, "SkyTexture0") {
        if let Expr::Symbol(t) = expr {
            keyframe.sky_texture_0 = Some(t.clone());
        }
    } else if str_eq(prop, "SkyTexture1") {
        if let Expr::Symbol(t) = expr {
            keyframe.sky_texture_1 = Some(t.clone());
        }
    } else if str_eq(prop, "SkyTexture1Blend") {
        if let Expr::Number(t) = expr {
            keyframe.sky_texture_1_blend = Some(t.clone());
        }
    } else if str_eq(prop, "MoonLit") {
        if let Expr::Bool(b) = expr {
            keyframe.moon_lit = *b;
        }
    } else if str_eq(prop, "FogStartZ") {
        if let Expr::Number(t) = expr {
            keyframe.fog_start_z = Some(t.clone());
        }
    } else if str_eq(prop, "FogEndZ") {
        if let Expr::Number(t) = expr {
            keyframe.fog_end_z = Some(t.clone());
        }
    }
}

/// The keyframe index, property name and value of a `Time[i].Property`
/// field (see [`time_field`]).
fn time_field_of(st: &Statement) -> (r: Option<(i32, &str, &Expr)>)
    ensures
        match time_field(*st) {
            Some((i, p, e)) => r matches Some((ri, rp, re)) && ri == i && rp@ == p && *re == e,
            None => r is None,
        },
{
    match st {
        Statement::Field(f) => {
            if f.path.segments.len() < 3 {
                return None;
            }
            match (&f.path.segments[0], &f.path.segments[1], &f.path.segments[2]) {
                (PathSegment::Field(n), PathSegment::Index(ix), PathSegment::Field(p)) => {
                    if !str_eq(n.as_str(), "Time") {
                        return None;
                    }
                    match ix.value.as_i32() {
                        Some(i) => Some((i, p.as_str(), &f.expr.value)),
                        None => None,
                    }
                },
                _ => None,
            }
        },
        _ => None,
    }
}

/// Before the lower bound every index is smaller; at it, none is.
proof fn lemma_lower_bound(s: Seq<(i32, TimeKeyframe)>, i: i32, j: int)
    requires
        0 <= j <= s.len(),
        forall|k: int| 0 <= k < j ==> s[k].0 < i,
    ensures
        j <= lower_bound(s, i, j) <= s.len(),
        forall|k: int| 0 <= k < lower_bound(s, i, j) ==> s[k].0 < i,
        lower_bound(s, i, j) < s.len() ==> s[lower_bound(s, i, j)].0 >= i,
    decreases s.len() - j,
{
    if j < s.len() && s[j].0 < i {
        lemma_lower_bound(s, i, j + 1);
    }
}

/// Setting a property keeps the indices ascending.
proof fn lemma_upsert_ascending(s: Seq<(i32, TimeKeyframe)>, i: i32, prop: Seq<char>, e: Expr)
    requires
        ascending(s),
    ensures
        ascending(upsert(s, i, prop, e)),
{
    lemma_lower_bound(s, i, 0);
}

/// The keyframes of a theme come in strictly ascending index, one for each
/// index that a `Time[i]` field names.
pub proof fn lemma_keyframes_ascending(body: Seq<Spanned<Statement>>, n: nat)
    ensures
        ascending(keyframes_m(body, n)),
    decreases n,
{
    if n > 0 && n <= body.len() {
        lemma_keyframes_ascending(body, (n - 1) as nat);
        if let Some((i, p, e)) = time_field(body[n - 1].value) {
            lemma_upsert_ascending(keyframes_m(body, (n - 1) as nat), i, p, e);
        }
    }
}

impl EnvironmentTheme {
    /// The theme a day theme definition gives (see [`theme_from`]).
    pub fn from_definition(def: &Definition) -> (r: EnvironmentTheme)
        ensures
            theme_from(*def, r),
    {
        let ghost body = def.body@;
        let mut indices: Vec<i32> = Vec::new();
        let mut keyframes: Vec<TimeKeyframe> = Vec::new();
        let mut n: usize = 0;
        while n < def.body.len()
            invariant
                body == def.body@,
                n <= body.len(),
                indices@.len() == keyframes@.len(),
                indices@.len() == keyframes_m(body, n as nat).len(),
                forall|k: int| 0 <= k < indices@.len() ==> (#[trigger] keyframes_m(body, n as nat)[k]) == (
                    indices@[k],
                    keyframes@[k],
                ),
            decreases body.len() - n,
        {
            let ghost s = keyframes_m(body, n as nat);
            match time_field_of(&def.body[n].value) {
                Some((i, prop, expr)) => {
                    let mut p: usize = 0;
                    while p < indices.len() && indices[p] < i
                        invariant
                            indices@.len() == s.len(),
                            forall|k: int| 0 <= k < indices@.len() ==> (#[trigger] s[k]).0 == indices@[k],
                            p <= indices@.len(),
                            lower_bound(s, i, 0) == lower_bound(s, i, p as int),
                        decreases indices@.len() - p,
                    {
                        p += 1;
                    }
                    assert(lower_bound(s, i, p as int) == p);
                    if p < indices.len() && indices[p] == i {
                        set_keyframe_property(&mut keyframes[p], prop, expr);
                    } else {
                        let mut k = TimeKeyframe::default();
                        set_keyframe_property(&mut k, prop, expr);
                        indices.insert(p, i);
                        keyframes.insert(p, k);
                    }
                },
                None => {},
            }
            n += 1;
            proof {
                let t = keyframes_m(body, n as nat);
                assert forall|k: int| 0 <= k < indices@.len() implies (#[trigger] t[k]) == (indices@[k], keyframes@[k]) by {
                }
            }
        }
        let ghost s = keyframes_m(body, body.len() as nat);
        assert(keyframes@ =~= s.map_values(|p: (i32, TimeKeyframe)| p.1));
        EnvironmentTheme { name: def.name.clone(), keyframes }
    }
}


// ── themes ────────────────────────────────────────────────────────────────────

proof fn lemma_name_pos(m: Seq<(Seq<char>, int)>, name: Seq<char>, k: int)
    requires
        0 <= k,
    ensures
        name_pos(m, name, k) matches Some(j) ==> k <= j < m.len() && m[j].0 == name,
        name_pos(m, name, k) is None ==> forall|j: int| k <= j < m.len() ==> m[j].0 != name,
    decreases m.len() - k,
{
    if k < m.len() && m[k].0 != name {
        lemma_name_pos(m, name, k + 1);
    }
}

/// Every theme comes from a definition before the first `n`, and no two
/// share a name.
pub proof fn lemma_themes_m(defs: Seq<Spanned<Definition>>, n: nat)
    ensures
        forall|k: int| 0 <= k < themes_m(defs, n).len() ==> 0 <= (#[trigger] themes_m(defs, n)[k]).1 < n
            && is_day_theme(defs[themes_m(defs, n)[k].1].value)
            && themes_m(defs, n)[k].0 == defs[themes_m(defs, n)[k].1].value.name@,
        forall|a: int, b: int|
            0 <= a < b < themes_m(defs, n).len() ==> (#[trigger] themes_m(defs, n)[a]).0 != (
            #[trigger] themes_m(defs, n)[b]).0,
    decreases n,
{
    if n > 0 && n <= defs.len() {
        lemma_themes_m(defs, (n - 1) as nat);
        let m = themes_m(defs, (n - 1) as nat);
        let d = defs[n - 1].value;
        if is_day_theme(d) {
            lemma_name_pos(m, d.name@, 0);
        }
    }
}

impl EnvironmentConfig {
    /// The day themes of the definitions of a def file (see
    /// [`config_from`]).
    pub fn from_def_file(file: &DefFile) -> (r: EnvironmentConfig)
        ensures
            config_from(file.definitions@, r.themes@),
    {
        let ghost defs = file.definitions@;
        let mut themes: Vec<EnvironmentTheme> = Vec::new();
        let mut n: usize = 0;
        while n < file.definitions.len()
            invariant
                defs == file.definitions@,
                n <= defs.len(),
                themes@.len() == themes_m(defs, n as nat).len(),
                forall|k: int| 0 <= k < themes@.len() ==> theme_from(
                    defs[themes_m(defs, n as nat)[k].1].value,
                    #[trigger] themes@[k],
                ),
                forall|k: int| 0 <= k < themes@.len() ==> (#[trigger] themes@[k]).name@ == themes_m(defs, n as nat)[k].0,
            decreases defs.len() - n,
        {
            let ghost m = themes_m(defs, n as nat);
            proof {
                lemma_themes_m(defs, n as nat);
            }
            let def = &file.definitions[n].value;
            if str_eq(def.def_type.as_str(), "ENVIRONMENT_THEME_DAY") {
                let theme = EnvironmentTheme::from_definition(def);
                let mut k: usize = 0;
                while k < themes.len() && !str_eq(themes[k].name.as_str(), def.name.as_str())
                    invariant
                        themes@.len() == m.len(),
                        forall|j: int| 0 <= j < themes@.len() ==> (#[trigger] themes@[j]).name@ == m[j].0,
                        k <= themes@.len(),
                        name_pos(m, def.name@, 0) == name_pos(m, def.name@, k as int),
                    decreases themes@.len() - k,
                {
                    k += 1;
                }
                if k < themes.len() {
                    themes.set(k, theme);
                } else {
                    themes.push(theme);
                }
            }
            n += 1;
        }
        EnvironmentConfig { themes }
    }

    /// Reads the day themes of an `environment.def` text; fails exactly where
    /// the text is no def file.
    pub fn parse(input: &str) -> (r: Result<EnvironmentConfig, EnvironmentParseError>)
        ensures
            match def_file_m(input.spec_bytes()) {
                Ok(m) => r matches Ok(c) && exists|f: DefFile| #[trigger] file_matches(f, m) && config_from(
                    f.definitions@,
                    c.themes@,
                ),
                Err(x) => r matches Err(EnvironmentParseError::Def(y)) && derr_matches(y, x),
            },
    {
        match parse_def_file(input) {
            Ok(file) => {
                let c = EnvironmentConfig::from_def_file(&file);
                Ok(c)
            },
            Err(e) => Err(EnvironmentParseError::Def(e)),
        }
    }

    /// The theme named `name`, if any.
    pub fn theme(&self, name: &str) -> (r: Option<&EnvironmentTheme>)
        ensures
            match theme_pos(self.themes@, name@, 0) {
                Some(k) => r == Some(&self.themes@[k]),
                None => r is None,
            },
    {
        let mut k: usize = 0;
        while k < self.themes.len()
            invariant
                k <= self.themes@.len(),
                theme_pos(self.themes@, name@, 0) == theme_pos(self.themes@, name@, k as int),
            decreases self.themes@.len() - k,
        {
            if str_eq(self.themes[k].name.as_str(), name) {
                return Some(&self.themes[k]);
            }
            k += 1;
        }
        None
    }
}


// ── sky textures ──────────────────────────────────────────────────────────────

/// `names` with the name `o` holds added at its end, unless it is there.
pub open spec fn add_name(names: Seq<Seq<char>>, o: Option<String>) -> Seq<Seq<char>> {
    match o {
        Some(s) => if names.contains(s@) {
            names
        } else {
            names.push(s@)
        },
        None => names,
    }
}

/// The sky texture names of the first `n` keyframes, each once, in the order
/// they first come (a keyframe's first texture before its second).
pub open spec fn sky_names(kfs: Seq<TimeKeyframe>, n: nat) -> Seq<Seq<char>>
    decreases n,
{
    if n == 0 || n > kfs.len() {
        Seq::empty()
    } else {
        let k = kfs[n - 1];
        add_name(add_name(sky_names(kfs, (n - 1) as nat), k.sky_texture_0), k.sky_texture_1)
    }
}

/// Adds the name of `o` to `names` unless it is there.
fn push_name<'a>(names: &mut Vec<&'a str>, o: &'a Option<String>)
    ensures
        final(names)@.map_values(|s: &str| s@) == add_name(old(names)@.map_values(|s: &str| s@), *o),
{
    let ghost before = names@.map_values(|s: &str| s@);
    if let Some(name) = o {
        let mut k: usize = 0;
        while k < names.len()
            invariant
                k <= names@.len(),
                before == names@.map_values(|s: &str| s@),
                names@ == old(names)@,
                *o == Some::<String>(*name),
                forall|j: int| 0 <= j < k ==> names@[j]@ != name@,
            decreases names@.len() - k,
        {
            if str_eq(names[k], name.as_str()) {
                assert(before[k as int] == name@);
                assert(before.contains(name@));
                return;
            }
            k += 1;
        }
        assert(!before.contains(name@));
        names.push(name.as_str());
        assert(names@.map_values(|s: &str| s@) =~= before.push(name@));
    }
}

impl EnvironmentTheme {
    /// The names of the sky textures of the theme, each once, in the order
    /// they first come (see [`sky_names`]).
    pub fn sky_texture_names(&self) -> (r: Vec<&str>)
        ensures
            r@.map_values(|s: &str| s@) == sky_names(self.keyframes@, self.keyframes@.len()),
    {
        let mut names: Vec<&str> = Vec::new();
        let mut n: usize = 0;
        proof {
            assert(names@.map_values(|s: &str| s@) =~= Seq::<Seq<char>>::empty());
        }
        while n < self.keyframes.len()
            invariant
                n <= self.keyframes@.len(),
                names@.map_values(|s: &str| s@) == sky_names(self.keyframes@, n as nat),
            decreases self.keyframes@.len() - n,
        {
            let kf = &self.keyframes[n];
            push_name(&mut names, &kf.sky_texture_0);
            push_name(&mut names, &kf.sky_texture_1);
            n += 1;
        }
        names
    }
}

impl EnvironmentParseError {
    /// The message of the error.
    pub fn to_string(&self) -> (r: String)
        ensures
            match self {
                EnvironmentParseError::Def(e) => r@ == "def parse error: "@ + def_err_message(derr_v(e.inner)),
            },
    {
        match self {
            EnvironmentParseError::Def(e) => {
                let mut s = String::new();
                s.append("def parse error: ");
                s.append(e.inner.to_string().as_str());
                s
            },
        }
    }
}

} // verus!
