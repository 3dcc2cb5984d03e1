//! Fable's `.tng` "Things" text files, the placed objects of a level.
//!
//! A `.tng` lists `NewThing ... EndThing;` blocks, grouped into
//! `XXXSectionStart ... XXXSectionEnd;` sections in version-2 files; each
//! carries the thing's `DefinitionType`, position, orientation and
//! components. Coordinates and other real-valued fields are kept as the
//! number texts they are written as (the empty text where a field is given
//! something else); a text that does not parse as a number reads as zero.

use vstd::prelude::*;
use vstd::string::StringSliceAdditionalSpecFns;
use vstd::utf8::encode_utf8;
use crate::bytes::str_eq;
use crate::def::text::number::{i32_of, parse_i32, parse_u64, u64_of};
use crate::kv::{
    err_matches, statements_m, stmt_matches, stmts_match, val_matches, KvError, KvErr, KvParser, KvStatement,
    KvStmtM, KvValM, KvValue,
};

verus! {

/// A parsed `.tng`: its sections in order.
#[derive(Debug)]
pub struct Tng {
    pub sections: Vec<TngSection>,
}

/// A section and the things in it; things outside any section form one
/// section with an empty name.
#[derive(Debug)]
pub struct TngSection {
    pub name: String,
    pub things: Vec<TngThing>,
}

/// One `NewThing` block.
#[derive(Debug)]
pub struct TngThing {
    pub thing_type: String,
    pub player: i32,
    pub uid: u64,
    pub definition_type: String,
    /// `PositionX`, `PositionY`, `PositionZ` as written.
    pub position: [String; 3],
    /// `RHSetForwardX`, `RHSetForwardY`, `RHSetForwardZ` as written.
    pub forward: [String; 3],
    /// `RHSetUpX`, `RHSetUpY`, `RHSetUpZ` as written.
    pub up: [String; 3],
    pub script_name: Option<String>,
    pub script_data: Option<String>,
    /// The text of the last `Health` number.
    pub health: Option<String>,
    /// The text of the last `ObjectScale` number.
    pub object_scale: Option<String>,
    pub game_persistent: bool,
    pub level_persistent: bool,
}

// ── the model ─────────────────────────────────────────────────────────────────

/// A thing with its texts as bytes.
pub struct ThingM {
    pub thing_type: Seq<u8>,
    pub player: int,
    pub uid: int,
    pub definition_type: Seq<u8>,
    pub position: Seq<Seq<u8>>,
    pub forward: Seq<Seq<u8>>,
    pub up: Seq<Seq<u8>>,
    pub script_name: Option<Seq<u8>>,
    pub script_data: Option<Seq<u8>>,
    pub health: Option<Seq<u8>>,
    pub object_scale: Option<Seq<u8>>,
    pub game_persistent: bool,
    pub level_persistent: bool,
}

/// A section with its texts as bytes.
pub struct SectionM {
    pub name: Seq<u8>,
    pub things: Seq<ThingM>,
}

/// Three empty texts.
pub open spec fn no_coords() -> Seq<Seq<u8>> {
    seq![Seq::empty(), Seq::empty(), Seq::empty()]
}

/// The thing a `NewThing <kind>;` block starts from.
pub open spec fn thing_start(kind: Seq<u8>) -> ThingM {
    ThingM {
        thing_type: kind,
        player: 0,
        uid: 0,
        definition_type: Seq::empty(),
        position: no_coords(),
        forward: no_coords(),
        up: no_coords(),
        script_name: None,
        script_data: None,
        health: None,
        object_scale: None,
        game_persistent: false,
        level_persistent: false,
    }
}

/// The text a coordinate takes from a value: a number's text, else empty.
pub open spec fn coord_text(v: KvValM) -> Seq<u8> {
    match v {
        KvValM::Number(n) => n,
        _ => Seq::empty(),
    }
}

/// The coordinate a physics field sets: which vector (0 position,
/// 1 forward, 2 up) and which component.
pub open spec fn coord_field(name: Seq<u8>) -> Option<(int, int)> {
    if name == "PositionX".spec_bytes() {
        Some((0, 0))
    } else if name == "PositionY".spec_bytes() {
        Some((0, 1))
    } else if name == "PositionZ".spec_bytes() {
        Some((0, 2))
    } else if name == "RHSetForwardX".spec_bytes() {
        Some((1, 0))
    } else if name == "RHSetForwardY".spec_bytes() {
        Some((1, 1))
    } else if name == "RHSetForwardZ".spec_bytes() {
        Some((1, 2))
    } else if name == "RHSetUpX".spec_bytes() {
        Some((2, 0))
    } else if name == "RHSetUpY".spec_bytes() {
        Some((2, 1))
    } else if name == "RHSetUpZ".spec_bytes() {
        Some((2, 2))
    } else {
        None
    }
}

/// `t` with component `c` of vector `w` set to `text`.
pub open spec fn set_coord(t: ThingM, w: int, c: int, text: Seq<u8>) -> ThingM {
    if w == 0 {
        ThingM { position: t.position.update(c, text), ..t }
    } else if w == 1 {
        ThingM { forward: t.forward.update(c, text), ..t }
    } else {
        ThingM { up: t.up.update(c, text), ..t }
    }
}

/// The thing and whether a `StartCTCPhysicsStandard` section is open, after
/// the block statement `s`. Known fields with the right kind of value set
/// their member (a `Player` that does not parse is -1, a `UID` 0); the
/// coordinates are read inside the physics section only.
pub open spec fn thing_step(st: (ThingM, bool), s: KvStmtM) -> (ThingM, bool) {
    let (t, phys) = st;
    match s {
        KvStmtM::Field(name, v) => if name == "Player".spec_bytes() && v is Number {
            (ThingM { player: match i32_of(v->Number_0) { Some(x) => x, None => -1 }, ..t }, phys)
        } else if name == "UID".spec_bytes() && v is Number {
            (ThingM { uid: match u64_of(v->Number_0) { Some(x) => x, None => 0 }, ..t }, phys)
        } else if name == "DefinitionType".spec_bytes() && v is Str {
            (ThingM { definition_type: v->Str_0, ..t }, phys)
        } else if name == "ScriptName".spec_bytes() && v is Ident {
            (ThingM { script_name: Some(v->Ident_0), ..t }, phys)
        } else if name == "ScriptName".spec_bytes() && v is Str {
            (ThingM { script_name: Some(v->Str_0), ..t }, phys)
        } else if name == "ScriptData".spec_bytes() && v is Str {
            (ThingM { script_data: Some(v->Str_0), ..t }, phys)
        } else if name == "Health".spec_bytes() && v is Number {
            (ThingM { health: Some(v->Number_0), ..t }, phys)
        } else if name == "ObjectScale".spec_bytes() && v is Number {
            (ThingM { object_scale: Some(v->Number_0), ..t }, phys)
        } else if name == "ThingGamePersistent".spec_bytes() && v is Bool {
            (ThingM { game_persistent: v->Bool_0, ..t }, phys)
        } else if name == "ThingLevelPersistent".spec_bytes() && v is Bool {
            (ThingM { level_persistent: v->Bool_0, ..t }, phys)
        } else if name == "StartCTCPhysicsStandard".spec_bytes() {
            (t, true)
        } else if name == "EndCTCPhysicsStandard".spec_bytes() {
            (t, false)
        } else if phys {
            match coord_field(name) {
                Some((w, c)) => (set_coord(t, w, c, coord_text(v)), phys),
                None => (t, phys),
            }
        } else {
            (t, phys)
        },
        KvStmtM::Block(_, _, _) => (t, phys),
    }
}

/// The thing and physics flag after the statements `body`.
pub open spec fn thing_fold(kind: Seq<u8>, body: Seq<KvStmtM>) -> (ThingM, bool)
    decreases body.len(),
{
    if body.len() == 0 {
        (thing_start(kind), false)
    } else {
        thing_step(thing_fold(kind, body.drop_last()), body.last())
    }
}

/// The thing of a `NewThing <kind>;` block with statements `body`.
pub open spec fn thing_m(kind: Seq<u8>, body: Seq<KvStmtM>) -> ThingM {
    thing_fold(kind, body).0
}

/// The things of the `NewThing` blocks among `s`, in order.
pub open spec fn things_m(s: Seq<KvStmtM>) -> Seq<ThingM>
    decreases s.len(),
{
    if s.len() == 0 {
        Seq::empty()
    } else {
        let prev = things_m(s.drop_last());
        match s.last() {
            KvStmtM::Block(k, kind, body) => if k == "NewThing".spec_bytes() {
                prev.push(thing_m(kind, body))
            } else {
                prev
            },
            _ => prev,
        }
    }
}

/// The closed sections and the open one after the top-level statement `s`:
/// a section start closes the open section and opens its own; a thing
/// outside any section opens one with an empty name.
pub open spec fn sections_step(st: (Seq<SectionM>, Option<SectionM>), s: KvStmtM) -> (Seq<SectionM>, Option<SectionM>) {
    let (done, cur) = st;
    match s {
        KvStmtM::Block(k, kind, body) => if k == "XXXSectionStart".spec_bytes() {
            let closed = match cur {
                Some(c) => done.push(c),
                None => done,
            };
            (closed, Some(SectionM { name: kind, things: things_m(body) }))
        } else if k == "NewThing".spec_bytes() {
            let c = match cur {
                Some(c) => c,
                None => SectionM { name: Seq::empty(), things: Seq::empty() },
            };
            (done, Some(SectionM { things: c.things.push(thing_m(kind, body)), ..c }))
        } else {
            (done, cur)
        },
        _ => (done, cur),
    }
}

/// The sections after the top-level statements `s`.
pub open spec fn sections_fold(s: Seq<KvStmtM>) -> (Seq<SectionM>, Option<SectionM>)
    decreases s.len(),
{
    if s.len() == 0 {
        (Seq::empty(), None)
    } else {
        sections_step(sections_fold(s.drop_last()), s.last())
    }
}

/// The sections of a `.tng` text, or the error of its statements.
pub open spec fn tng_m(b: Seq<u8>) -> Result<Seq<SectionM>, KvErr> {
    match statements_m(b, 0, 1) {
        Ok((s, _, _)) => {
            let (done, cur) = sections_fold(s);
            Ok(
                match cur {
                    Some(c) => done.push(c),
                    None => done,
                },
            )
        },
        Err(x) => Err(x),
    }
}

/// The texts `v` are the model's `m`.
pub open spec fn texts_match(v: Seq<String>, m: Seq<Seq<u8>>) -> bool {
    v.len() == m.len() && forall|i: int| 0 <= i < m.len() ==> encode_utf8((#[trigger] v[i])@) == m[i]
}

/// The optional text `v` is the model's `m`.
pub open spec fn opt_text_matches(v: Option<String>, m: Option<Seq<u8>>) -> bool {
    match v {
        Some(s) => m matches Some(t) && encode_utf8(s@) == t,
        None => m is None,
    }
}

/// The thing `t` is the model's `m`.
pub open spec fn thing_matches(t: TngThing, m: ThingM) -> bool {
    &&& encode_utf8(t.thing_type@) == m.thing_type
    &&& t.player == m.player
    &&& t.uid == m.uid
    &&& encode_utf8(t.definition_type@) == m.definition_type
    &&& texts_match(t.position@, m.position)
    &&& texts_match(t.forward@, m.forward)
    &&& texts_match(t.up@, m.up)
    &&& opt_text_matches(t.script_name, m.script_name)
    &&& opt_text_matches(t.script_data, m.script_data)
    &&& opt_text_matches(t.health, m.health)
    &&& opt_text_matches(t.object_scale, m.object_scale)
    &&& t.game_persistent == m.game_persistent
    &&& t.level_persistent == m.level_persistent
}

/// The section `s` is the model's `m`.
pub open spec fn section_matches(s: TngSection, m: SectionM) -> bool {
    &&& encode_utf8(s.name@) == m.name
    &&& s.things@.len() == m.things.len()
    &&& forall|i: int| 0 <= i < m.things.len() ==> thing_matches(#[trigger] s.things@[i], m.things[i])
}

/// The sections `v` are the model's `m`.
pub open spec fn sections_match(v: Seq<TngSection>, m: Seq<SectionM>) -> bool {
    v.len() == m.len() && forall|i: int| 0 <= i < m.len() ==> section_matches(#[trigger] v[i], m[i])
}

/// The thing of a `NewThing <kind>;` block with statements `body` followed by
/// the field `name` with the number `n`.
pub open spec fn with_field(kind: Seq<u8>, body: Seq<KvStmtM>, name: Seq<u8>, n: Seq<u8>) -> ThingM {
    thing_m(kind, body.push(KvStmtM::Field(name, KvValM::Number(n))))
}

/// Whether `u` is `t` with component `c` of vector `w` (0 the position,
/// 1 the forward vector, 2 the up vector) replaced by `n`, all else kept.
pub open spec fn writes_coord(t: ThingM, u: ThingM, w: int, c: int, n: Seq<u8>) -> bool {
    &&& u.position == (if w == 0 { t.position.update(c, n) } else { t.position })
    &&& u.forward == (if w == 1 { t.forward.update(c, n) } else { t.forward })
    &&& u.up == (if w == 2 { t.up.update(c, n) } else { t.up })
    &&& u.thing_type == t.thing_type && u.player == t.player && u.uid == t.uid
    &&& u.definition_type == t.definition_type && u.script_name == t.script_name
    &&& u.script_data == t.script_data && u.health == t.health && u.object_scale == t.object_scale
    &&& u.game_persistent == t.game_persistent && u.level_persistent == t.level_persistent
}

proof fn lemma_encodings_differ(a: Seq<char>, b: Seq<char>)
    requires
        a != b,
    ensures
        vstd::utf8::encode_utf8(a) != vstd::utf8::encode_utf8(b),
{
    vstd::utf8::encode_utf8_decode_utf8(a);
    vstd::utf8::encode_utf8_decode_utf8(b);
}

proof fn lemma_one_coordinate(kind: Seq<u8>, body: Seq<KvStmtM>, n: Seq<u8>, name: Seq<u8>, w: int, c: int)
    requires
        thing_fold(kind, body).1,
        coord_field(name) == Some((w, c)),
        0 <= w < 3,
        name != "Player".spec_bytes(),
        name != "UID".spec_bytes(),
        name != "DefinitionType".spec_bytes(),
        name != "ScriptName".spec_bytes(),
        name != "ScriptData".spec_bytes(),
        name != "Health".spec_bytes(),
        name != "ObjectScale".spec_bytes(),
        name != "ThingGamePersistent".spec_bytes(),
        name != "ThingLevelPersistent".spec_bytes(),
        name != "StartCTCPhysicsStandard".spec_bytes(),
        name != "EndCTCPhysicsStandard".spec_bytes(),
    ensures
        writes_coord(thing_m(kind, body), with_field(kind, body, name, n), w, c, n),
{
    let b2 = body.push(KvStmtM::Field(name, KvValM::Number(n)));
    assert(b2.drop_last() =~= body);
}

/// Inside a thing's physics section each coordinate field writes the
/// component its name names, of the vector its name names, and nothing
/// else: `...X`, `...Y` and `...Z` are components 0, 1 and 2 of the
/// position (`Position*`), the forward vector (`RHSetForward*`) and the up
/// vector (`RHSetUp*`); the value written is the number's text.
pub proof fn lemma_coordinate_fields(kind: Seq<u8>, body: Seq<KvStmtM>, n: Seq<u8>)
    requires
        thing_fold(kind, body).1,
    ensures
        writes_coord(thing_m(kind, body), with_field(kind, body, "PositionX".spec_bytes(), n), 0, 0, n),
        writes_coord(thing_m(kind, body), with_field(kind, body, "PositionY".spec_bytes(), n), 0, 1, n),
        writes_coord(thing_m(kind, body), with_field(kind, body, "PositionZ".spec_bytes(), n), 0, 2, n),
        writes_coord(thing_m(kind, body), with_field(kind, body, "RHSetForwardX".spec_bytes(), n), 1, 0, n),
        writes_coord(thing_m(kind, body), with_field(kind, body, "RHSetForwardY".spec_bytes(), n), 1, 1, n),
        writes_coord(thing_m(kind, body), with_field(kind, body, "RHSetForwardZ".spec_bytes(), n), 1, 2, n),
        writes_coord(thing_m(kind, body), with_field(kind, body, "RHSetUpX".spec_bytes(), n), 2, 0, n),
        writes_coord(thing_m(kind, body), with_field(kind, body, "RHSetUpY".spec_bytes(), n), 2, 1, n),
        writes_coord(thing_m(kind, body), with_field(kind, body, "RHSetUpZ".spec_bytes(), n), 2, 2, n),
{
    reveal_strlit("PositionX");
    reveal_strlit("PositionY");
    reveal_strlit("PositionZ");
    reveal_strlit("RHSetForwardX");
    reveal_strlit("RHSetForwardY");
    reveal_strlit("RHSetForwardZ");
    reveal_strlit("RHSetUpX");
    reveal_strlit("RHSetUpY");
    reveal_strlit("RHSetUpZ");
    reveal_strlit("Player");
    reveal_strlit("UID");
    reveal_strlit("DefinitionType");
    reveal_strlit("ScriptName");
    reveal_strlit("ScriptData");
    reveal_strlit("Health");
    reveal_strlit("ObjectScale");
    reveal_strlit("ThingGamePersistent");
    reveal_strlit("ThingLevelPersistent");
    reveal_strlit("StartCTCPhysicsStandard");
    reveal_strlit("EndCTCPhysicsStandard");
    assert("PositionX"@.len() != "Player"@.len());
    lemma_encodings_differ("PositionX"@, "Player"@);
    assert("PositionX"@.len() != "UID"@.len());
    lemma_encodings_differ("PositionX"@, "UID"@);
    assert("PositionX"@.len() != "DefinitionType"@.len());
    lemma_encodings_differ("PositionX"@, "DefinitionType"@);
    assert("PositionX"@.len() != "ScriptName"@.len());
    lemma_encodings_differ("PositionX"@, "ScriptName"@);
    assert("PositionX"@.len() != "ScriptData"@.len());
    lemma_encodings_differ("PositionX"@, "ScriptData"@);
    assert("PositionX"@.len() != "Health"@.len());
    lemma_encodings_differ("PositionX"@, "Health"@);
    assert("PositionX"@.len() != "ObjectScale"@.len());
    lemma_encodings_differ("PositionX"@, "ObjectScale"@);
    assert("PositionX"@.len() != "ThingGamePersistent"@.len());
    lemma_encodings_differ("PositionX"@, "ThingGamePersistent"@);
    assert("PositionX"@.len() != "ThingLevelPersistent"@.len());
    lemma_encodings_differ("PositionX"@, "ThingLevelPersistent"@);
    assert("PositionX"@.len() != "StartCTCPhysicsStandard"@.len());
    lemma_encodings_differ("PositionX"@, "StartCTCPhysicsStandard"@);
    assert("PositionX"@.len() != "EndCTCPhysicsStandard"@.len());
    lemma_encodings_differ("PositionX"@, "EndCTCPhysicsStandard"@);
    assert("PositionY"@.len() != "Player"@.len());
    lemma_encodings_differ("PositionY"@, "Player"@);
    assert("PositionY"@.len() != "UID"@.len());
    lemma_encodings_differ("PositionY"@, "UID"@);
    assert("PositionY"@.len() != "DefinitionType"@.len());
    lemma_encodings_differ("PositionY"@, "DefinitionType"@);
    assert("PositionY"@.len() != "ScriptName"@.len());
    lemma_encodings_differ("PositionY"@, "ScriptName"@);
    assert("PositionY"@.len() != "ScriptData"@.len());
    lemma_encodings_differ("PositionY"@, "ScriptData"@);
    assert("PositionY"@.len() != "Health"@.len());
    lemma_encodings_differ("PositionY"@, "Health"@);
    assert("PositionY"@.len() != "ObjectScale"@.len());
    lemma_encodings_differ("PositionY"@, "ObjectScale"@);
    assert("PositionY"@.len() != "ThingGamePersistent"@.len());
    lemma_encodings_differ("PositionY"@, "ThingGamePersistent"@);
    assert("PositionY"@.len() != "ThingLevelPersistent"@.len());
    lemma_encodings_differ("PositionY"@, "ThingLevelPersistent"@);
    assert("PositionY"@.len() != "StartCTCPhysicsStandard"@.len());
    lemma_encodings_differ("PositionY"@, "StartCTCPhysicsStandard"@);
    assert("PositionY"@.len() != "EndCTCPhysicsStandard"@.len());
    lemma_encodings_differ("PositionY"@, "EndCTCPhysicsStandard"@);
    assert("PositionY"@[8] != "PositionX"@[8]);
    lemma_encodings_differ("PositionY"@, "PositionX"@);
    assert("PositionZ"@.len() != "Player"@.len());
    lemma_encodings_differ("PositionZ"@, "Player"@);
    assert("PositionZ"@.len() != "UID"@.len());
    lemma_encodings_differ("PositionZ"@, "UID"@);
    assert("PositionZ"@.len() != "DefinitionType"@.len());
    lemma_encodings_differ("PositionZ"@, "DefinitionType"@);
    assert("PositionZ"@.len() != "ScriptName"@.len());
    lemma_encodings_differ("PositionZ"@, "ScriptName"@);
    assert("PositionZ"@.len() != "ScriptData"@.len());
    lemma_encodings_differ("PositionZ"@, "ScriptData"@);
    assert("PositionZ"@.len() != "Health"@.len());
    lemma_encodings_differ("PositionZ"@, "Health"@);
    assert("PositionZ"@.len() != "ObjectScale"@.len());
    lemma_encodings_differ("PositionZ"@, "ObjectScale"@);
    assert("PositionZ"@.len() != "ThingGamePersistent"@.len());
    lemma_encodings_differ("PositionZ"@, "ThingGamePersistent"@);
    assert("PositionZ"@.len() != "ThingLevelPersistent"@.len());
    lemma_encodings_differ("PositionZ"@, "ThingLevelPersistent"@);
    assert("PositionZ"@.len() != "StartCTCPhysicsStandard"@.len());
    lemma_encodings_differ("PositionZ"@, "StartCTCPhysicsStandard"@);
    assert("PositionZ"@.len() != "EndCTCPhysicsStandard"@.len());
    lemma_encodings_differ("PositionZ"@, "EndCTCPhysicsStandard"@);
    assert("PositionZ"@[8] != "PositionX"@[8]);
    lemma_encodings_differ("PositionZ"@, "PositionX"@);
    assert("PositionZ"@[8] != "PositionY"@[8]);
    lemma_encodings_differ("PositionZ"@, "PositionY"@);
    assert("RHSetForwardX"@.len() != "Player"@.len());
    lemma_encodings_differ("RHSetForwardX"@, "Player"@);
    assert("RHSetForwardX"@.len() != "UID"@.len());
    lemma_encodings_differ("RHSetForwardX"@, "UID"@);
    assert("RHSetForwardX"@.len() != "DefinitionType"@.len());
    lemma_encodings_differ("RHSetForwardX"@, "DefinitionType"@);
    assert("RHSetForwardX"@.len() != "ScriptName"@.len());
    lemma_encodings_differ("RHSetForwardX"@, "ScriptName"@);
    assert("RHSetForwardX"@.len() != "ScriptData"@.len());
    lemma_encodings_differ("RHSetForwardX"@, "ScriptData"@);
    assert("RHSetForwardX"@.len() != "Health"@.len());
    lemma_encodings_differ("RHSetForwardX"@, "Health"@);
    assert("RHSetForwardX"@.len() != "ObjectScale"@.len());
    lemma_encodings_differ("RHSetForwardX"@, "ObjectScale"@);
    assert("RHSetForwardX"@.len() != "ThingGamePersistent"@.len());
    lemma_encodings_differ("RHSetForwardX"@, "ThingGamePersistent"@);
    assert("RHSetForwardX"@.len() != "ThingLevelPersistent"@.len());
    lemma_encodings_differ("RHSetForwardX"@, "ThingLevelPersistent"@);
    assert("RHSetForwardX"@.len() != "StartCTCPhysicsStandard"@.len());
    lemma_encodings_differ("RHSetForwardX"@, "StartCTCPhysicsStandard"@);
    assert("RHSetForwardX"@.len() != "EndCTCPhysicsStandard"@.len());
    lemma_encodings_differ("RHSetForwardX"@, "EndCTCPhysicsStandard"@);
    assert("RHSetForwardX"@.len() != "PositionX"@.len());
    lemma_encodings_differ("RHSetForwardX"@, "PositionX"@);
    assert("RHSetForwardX"@.len() != "PositionY"@.len());
    lemma_encodings_differ("RHSetForwardX"@, "PositionY"@);
    assert("RHSetForwardX"@.len() != "PositionZ"@.len());
    lemma_encodings_differ("RHSetForwardX"@, "PositionZ"@);
    assert("RHSetForwardY"@.len() != "Player"@.len());
    lemma_encodings_differ("RHSetForwardY"@, "Player"@);
    assert("RHSetForwardY"@.len() != "UID"@.len());
    lemma_encodings_differ("RHSetForwardY"@, "UID"@);
    assert("RHSetForwardY"@.len() != "DefinitionType"@.len());
    lemma_encodings_differ("RHSetForwardY"@, "DefinitionType"@);
    assert("RHSetForwardY"@.len() != "ScriptName"@.len());
    lemma_encodings_differ("RHSetForwardY"@, "ScriptName"@);
    assert("RHSetForwardY"@.len() != "ScriptData"@.len());
    lemma_encodings_differ("RHSetForwardY"@, "ScriptData"@);
    assert("RHSetForwardY"@.len() != "Health"@.len());
    lemma_encodings_differ("RHSetForwardY"@, "Health"@);
    assert("RHSetForwardY"@.len() != "ObjectScale"@.len());
    lemma_encodings_differ("RHSetForwardY"@, "ObjectScale"@);
    assert("RHSetForwardY"@.len() != "ThingGamePersistent"@.len());
    lemma_encodings_differ("RHSetForwardY"@, "ThingGamePersistent"@);
    assert("RHSetForwardY"@.len() != "ThingLevelPersistent"@.len());
    lemma_encodings_differ("RHSetForwardY"@, "ThingLevelPersistent"@);
    assert("RHSetForwardY"@.len() != "StartCTCPhysicsStandard"@.len());
    lemma_encodings_differ("RHSetForwardY"@, "StartCTCPhysicsStandard"@);
    assert("RHSetForwardY"@.len() != "EndCTCPhysicsStandard"@.len());
    lemma_encodings_differ("RHSetForwardY"@, "EndCTCPhysicsStandard"@);
    assert("RHSetForwardY"@.len() != "PositionX"@.len());
    lemma_encodings_differ("RHSetForwardY"@, "PositionX"@);
    assert("RHSetForwardY"@.len() != "PositionY"@.len());
    lemma_encodings_differ("RHSetForwardY"@, "PositionY"@);
    assert("RHSetForwardY"@.len() != "PositionZ"@.len());
    lemma_encodings_differ("RHSetForwardY"@, "PositionZ"@);
    assert("RHSetForwardY"@[12] != "RHSetForwardX"@[12]);
    lemma_encodings_differ("RHSetForwardY"@, "RHSetForwardX"@);
    assert("RHSetForwardZ"@.len() != "Player"@.len());
    lemma_encodings_differ("RHSetForwardZ"@, "Player"@);
    assert("RHSetForwardZ"@.len() != "UID"@.len());
    lemma_encodings_differ("RHSetForwardZ"@, "UID"@);
    assert("RHSetForwardZ"@.len() != "DefinitionType"@.len());
    lemma_encodings_differ("RHSetForwardZ"@, "DefinitionType"@);
    assert("RHSetForwardZ"@.len() != "ScriptName"@.len());
    lemma_encodings_differ("RHSetForwardZ"@, "ScriptName"@);
    assert("RHSetForwardZ"@.len() != "ScriptData"@.len());
    lemma_encodings_differ("RHSetForwardZ"@, "ScriptData"@);
    assert("RHSetForwardZ"@.len() != "Health"@.len());
    lemma_encodings_differ("RHSetForwardZ"@, "Health"@);
    assert("RHSetForwardZ"@.len() != "ObjectScale"@.len());
    lemma_encodings_differ("RHSetForwardZ"@, "ObjectScale"@);
    assert("RHSetForwardZ"@.len() != "ThingGamePersistent"@.len());
    lemma_encodings_differ("RHSetForwardZ"@, "ThingGamePersistent"@);
    assert("RHSetForwardZ"@.len() != "ThingLevelPersistent"@.len());
    lemma_encodings_differ("RHSetForwardZ"@, "ThingLevelPersistent"@);
    assert("RHSetForwardZ"@.len() != "StartCTCPhysicsStandard"@.len());
    lemma_encodings_differ("RHSetForwardZ"@, "StartCTCPhysicsStandard"@);
    assert("RHSetForwardZ"@.len() != "EndCTCPhysicsStandard"@.len());
    lemma_encodings_differ("RHSetForwardZ"@, "EndCTCPhysicsStandard"@);
    assert("RHSetForwardZ"@.len() != "PositionX"@.len());
    lemma_encodings_differ("RHSetForwardZ"@, "PositionX"@);
    assert("RHSetForwardZ"@.len() != "PositionY"@.len());
    lemma_encodings_differ("RHSetForwardZ"@, "PositionY"@);
    assert("RHSetForwardZ"@.len() != "PositionZ"@.len());
    lemma_encodings_differ("RHSetForwardZ"@, "PositionZ"@);
    assert("RHSetForwardZ"@[12] != "RHSetForwardX"@[12]);
    lemma_encodings_differ("RHSetForwardZ"@, "RHSetForwardX"@);
    assert("RHSetForwardZ"@[12] != "RHSetForwardY"@[12]);
    lemma_encodings_differ("RHSetForwardZ"@, "RHSetForwardY"@);
    assert("RHSetUpX"@.len() != "Player"@.len());
    lemma_encodings_differ("RHSetUpX"@, "Player"@);
    assert("RHSetUpX"@.len() != "UID"@.len());
    lemma_encodings_differ("RHSetUpX"@, "UID"@);
    assert("RHSetUpX"@.len() != "DefinitionType"@.len());
    lemma_encodings_differ("RHSetUpX"@, "DefinitionType"@);
    assert("RHSetUpX"@.len() != "ScriptName"@.len());
    lemma_encodings_differ("RHSetUpX"@, "ScriptName"@);
    assert("RHSetUpX"@.len() != "ScriptData"@.len());
    lemma_encodings_differ("RHSetUpX"@, "ScriptData"@);
    assert("RHSetUpX"@.len() != "Health"@.len());
    lemma_encodings_differ("RHSetUpX"@, "Health"@);
    assert("RHSetUpX"@.len() != "ObjectScale"@.len());
    lemma_encodings_differ("RHSetUpX"@, "ObjectScale"@);
    assert("RHSetUpX"@.len() != "ThingGamePersistent"@.len());
    lemma_encodings_differ("RHSetUpX"@, "ThingGamePersistent"@);
    assert("RHSetUpX"@.len() != "ThingLevelPersistent"@.len());
    lemma_encodings_differ("RHSetUpX"@, "ThingLevelPersistent"@);
    assert("RHSetUpX"@.len() != "StartCTCPhysicsStandard"@.len());
    lemma_encodings_differ("RHSetUpX"@, "StartCTCPhysicsStandard"@);
    assert("RHSetUpX"@.len() != "EndCTCPhysicsStandard"@.len());
    lemma_encodings_differ("RHSetUpX"@, "EndCTCPhysicsStandard"@);
    assert("RHSetUpX"@.len() != "PositionX"@.len());
    lemma_encodings_differ("RHSetUpX"@, "PositionX"@);
    assert("RHSetUpX"@.len() != "PositionY"@.len());
    lemma_encodings_differ("RHSetUpX"@, "PositionY"@);
    assert("RHSetUpX"@.len() != "PositionZ"@.len());
    lemma_encodings_differ("RHSetUpX"@, "PositionZ"@);
    assert("RHSetUpX"@.len() != "RHSetForwardX"@.len());
    lemma_encodings_differ("RHSetUpX"@, "RHSetForwardX"@);
    assert("RHSetUpX"@.len() != "RHSetForwardY"@.len());
    lemma_encodings_differ("RHSetUpX"@, "RHSetForwardY"@);
    assert("RHSetUpX"@.len() != "RHSetForwardZ"@.len());
    lemma_encodings_differ("RHSetUpX"@, "RHSetForwardZ"@);
    assert("RHSetUpY"@.len() != "Player"@.len());
    lemma_encodings_differ("RHSetUpY"@, "Player"@);
    assert("RHSetUpY"@.len() != "UID"@.len());
    lemma_encodings_differ("RHSetUpY"@, "UID"@);
    assert("RHSetUpY"@.len() != "DefinitionType"@.len());
    lemma_encodings_differ("RHSetUpY"@, "DefinitionType"@);
    assert("RHSetUpY"@.len() != "ScriptName"@.len());
    lemma_encodings_differ("RHSetUpY"@, "ScriptName"@);
    assert("RHSetUpY"@.len() != "ScriptData"@.len());
    lemma_encodings_differ("RHSetUpY"@, "ScriptData"@);
    assert("RHSetUpY"@.len() != "Health"@.len());
    lemma_encodings_differ("RHSetUpY"@, "Health"@);
    assert("RHSetUpY"@.len() != "ObjectScale"@.len());
    lemma_encodings_differ("RHSetUpY"@, "ObjectScale"@);
    assert("RHSetUpY"@.len() != "ThingGamePersistent"@.len());
    lemma_encodings_differ("RHSetUpY"@, "ThingGamePersistent"@);
    assert("RHSetUpY"@.len() != "ThingLevelPersistent"@.len());
    lemma_encodings_differ("RHSetUpY"@, "ThingLevelPersistent"@);
    assert("RHSetUpY"@.len() != "StartCTCPhysicsStandard"@.len());
    lemma_encodings_differ("RHSetUpY"@, "StartCTCPhysicsStandard"@);
    assert("RHSetUpY"@.len() != "EndCTCPhysicsStandard"@.len());
    lemma_encodings_differ("RHSetUpY"@, "EndCTCPhysicsStandard"@);
    assert("RHSetUpY"@.len() != "PositionX"@.len());
    lemma_encodings_differ("RHSetUpY"@, "PositionX"@);
    assert("RHSetUpY"@.len() != "PositionY"@.len());
    lemma_encodings_differ("RHSetUpY"@, "PositionY"@);
    assert("RHSetUpY"@.len() != "PositionZ"@.len());
    lemma_encodings_differ("RHSetUpY"@, "PositionZ"@);
    assert("RHSetUpY"@.len() != "RHSetForwardX"@.len());
    lemma_encodings_differ("RHSetUpY"@, "RHSetForwardX"@);
    assert("RHSetUpY"@.len() != "RHSetForwardY"@.len());
    lemma_encodings_differ("RHSetUpY"@, "RHSetForwardY"@);
    assert("RHSetUpY"@.len() != "RHSetForwardZ"@.len());
    lemma_encodings_differ("RHSetUpY"@, "RHSetForwardZ"@);
    assert("RHSetUpY"@[7] != "RHSetUpX"@[7]);
    lemma_encodings_differ("RHSetUpY"@, "RHSetUpX"@);
    assert("RHSetUpZ"@.len() != "Player"@.len());
    lemma_encodings_differ("RHSetUpZ"@, "Player"@);
    assert("RHSetUpZ"@.len() != "UID"@.len());
    lemma_encodings_differ("RHSetUpZ"@, "UID"@);
    assert("RHSetUpZ"@.len() != "DefinitionType"@.len());
    lemma_encodings_differ("RHSetUpZ"@, "DefinitionType"@);
    assert("RHSetUpZ"@.len() != "ScriptName"@.len());
    lemma_encodings_differ("RHSetUpZ"@, "ScriptName"@);
    assert("RHSetUpZ"@.len() != "ScriptData"@.len());
    lemma_encodings_differ("RHSetUpZ"@, "ScriptData"@);
    assert("RHSetUpZ"@.len() != "Health"@.len());
    lemma_encodings_differ("RHSetUpZ"@, "Health"@);
    assert("RHSetUpZ"@.len() != "ObjectScale"@.len());
    lemma_encodings_differ("RHSetUpZ"@, "ObjectScale"@);
    assert("RHSetUpZ"@.len() != "ThingGamePersistent"@.len());
    lemma_encodings_differ("RHSetUpZ"@, "ThingGamePersistent"@);
    assert("RHSetUpZ"@.len() != "ThingLevelPersistent"@.len());
    lemma_encodings_differ("RHSetUpZ"@, "ThingLevelPersistent"@);
    assert("RHSetUpZ"@.len() != "StartCTCPhysicsStandard"@.len());
    lemma_encodings_differ("RHSetUpZ"@, "StartCTCPhysicsStandard"@);
    assert("RHSetUpZ"@.len() != "EndCTCPhysicsStandard"@.len());
    lemma_encodings_differ("RHSetUpZ"@, "EndCTCPhysicsStandard"@);
    assert("RHSetUpZ"@.len() != "PositionX"@.len());
    lemma_encodings_differ("RHSetUpZ"@, "PositionX"@);
    assert("RHSetUpZ"@.len() != "PositionY"@.len());
    lemma_encodings_differ("RHSetUpZ"@, "PositionY"@);
    assert("RHSetUpZ"@.len() != "PositionZ"@.len());
    lemma_encodings_differ("RHSetUpZ"@, "PositionZ"@);
    assert("RHSetUpZ"@.len() != "RHSetForwardX"@.len());
    lemma_encodings_differ("RHSetUpZ"@, "RHSetForwardX"@);
    assert("RHSetUpZ"@.len() != "RHSetForwardY"@.len());
    lemma_encodings_differ("RHSetUpZ"@, "RHSetForwardY"@);
    assert("RHSetUpZ"@.len() != "RHSetForwardZ"@.len());
    lemma_encodings_differ("RHSetUpZ"@, "RHSetForwardZ"@);
    assert("RHSetUpZ"@[7] != "RHSetUpX"@[7]);
    lemma_encodings_differ("RHSetUpZ"@, "RHSetUpX"@);
    assert("RHSetUpZ"@[7] != "RHSetUpY"@[7]);
    lemma_encodings_differ("RHSetUpZ"@, "RHSetUpY"@);
    lemma_one_coordinate(kind, body, n, "PositionX".spec_bytes(), 0, 0);
    lemma_one_coordinate(kind, body, n, "PositionY".spec_bytes(), 0, 1);
    lemma_one_coordinate(kind, body, n, "PositionZ".spec_bytes(), 0, 2);
    lemma_one_coordinate(kind, body, n, "RHSetForwardX".spec_bytes(), 1, 0);
    lemma_one_coordinate(kind, body, n, "RHSetForwardY".spec_bytes(), 1, 1);
    lemma_one_coordinate(kind, body, n, "RHSetForwardZ".spec_bytes(), 1, 2);
    lemma_one_coordinate(kind, body, n, "RHSetUpX".spec_bytes(), 2, 0);
    lemma_one_coordinate(kind, body, n, "RHSetUpY".spec_bytes(), 2, 1);
    lemma_one_coordinate(kind, body, n, "RHSetUpZ".spec_bytes(), 2, 2);
}

// ── the code ──────────────────────────────────────────────────────────────────

fn empty_coords() -> (r: [String; 3])
    ensures
        texts_match(r@, no_coords()),
{
    let r = [String::new(), String::new(), String::new()];
    proof {
        assert(encode_utf8(Seq::<char>::empty()) =~= Seq::<u8>::empty()) by {
            vstd::utf8::encode_utf8_valid_utf8(Seq::<char>::empty());
        }
    }
    r
}

fn coord_text_exec(v: &KvValue) -> (r: String)
    ensures
        forall|m: KvValM| val_matches(*v, m) ==> encode_utf8(r@) == coord_text(m),
{
    match v {
        KvValue::Number(n) => (*n).to_owned(),
        _ => {
            let r = String::new();
            assert(encode_utf8(r@) =~= Seq::<u8>::empty());
            r
        },
    }
}

/// The thing of a `NewThing <kind>;` block (see [`thing_m`]).
fn parse_thing(thing_type: &str, body: &[KvStatement<'_>], Ghost(bm): Ghost<Seq<KvStmtM>>) -> (r: TngThing)
    requires
        stmts_match(body@, bm),
    ensures
        thing_matches(r, thing_m(thing_type.spec_bytes(), bm)),
{
    let ghost kind = thing_type.spec_bytes();
    let mut thing = TngThing {
        thing_type: thing_type.to_owned(),
        player: 0,
        uid: 0,
        definition_type: String::new(),
        position: empty_coords(),
        forward: empty_coords(),
        up: empty_coords(),
        script_name: None,
        script_data: None,
        health: None,
        object_scale: None,
        game_persistent: false,
        level_persistent: false,
    };
    let mut in_physics = false;
    proof {
        assert(encode_utf8(thing.definition_type@) =~= Seq::<u8>::empty());
        assert(bm.take(0) =~= Seq::<KvStmtM>::empty());
    }
    let mut i: usize = 0;
    while i < body.len()
        invariant
            stmts_match(body@, bm),
            kind == thing_type.spec_bytes(),
            i <= body@.len(),
            thing_matches(thing, thing_fold(kind, bm.take(i as int)).0),
            in_physics == thing_fold(kind, bm.take(i as int)).1,
        decreases body@.len() - i,
    {
        let ghost st = bm[i as int];
        assert(stmt_matches(body@[i as int], st));
        assert(bm.take(i + 1).drop_last() =~= bm.take(i as int));
        if let KvStatement::Field(name, value) = &body[i] {
            let name: &str = *name;
            let num = match value {
                KvValue::Number(n) => Some(*n),
                _ => None,
            };
            let text = match value {
                KvValue::String(s) => Some(*s),
                _ => None,
            };
            if str_eq(name, "Player") && num.is_some() {
                thing.player = match parse_i32(num.unwrap()) {
                    Some(v) => v,
                    None => -1,
                };
            } else if str_eq(name, "UID") && num.is_some() {
                thing.uid = match parse_u64(num.unwrap()) {
                    Some(v) => v,
                    None => 0,
                };
            } else if str_eq(name, "DefinitionType") && text.is_some() {
                thing.definition_type = text.unwrap().to_owned();
            } else if str_eq(name, "ScriptName") && matches!(value, KvValue::Ident(_)) {
                if let KvValue::Ident(s) = value {
                    thing.script_name = Some((*s).to_owned());
                }
            } else if str_eq(name, "ScriptName") && text.is_some() {
                thing.script_name = Some(text.unwrap().to_owned());
            } else if str_eq(name, "ScriptData") && text.is_some() {
                thing.script_data = Some(text.unwrap().to_owned());
            } else if str_eq(name, "Health") && num.is_some() {
                thing.health = Some(num.unwrap().to_owned());
            } else if str_eq(name, "ObjectScale") && num.is_some() {
                thing.object_scale = Some(num.unwrap().to_owned());
            } else if str_eq(name, "ThingGamePersistent") && matches!(value, KvValue::Bool(_)) {
                if let KvValue::Bool(b) = value {
                    thing.game_persistent = *b;
                }
            } else if str_eq(name, "ThingLevelPersistent") && matches!(value, KvValue::Bool(_)) {
                if let KvValue::Bool(b) = value {
                    thing.level_persistent = *b;
                }
            } else if str_eq(name, "StartCTCPhysicsStandard") {
                in_physics = true;
            } else if str_eq(name, "EndCTCPhysicsStandard") {
                in_physics = false;
            } else if in_physics {
                let t = coord_text_exec(value);
                if str_eq(name, "PositionX") {
                    thing.position[0] = t;
                } else if str_eq(name, "PositionY") {
                    thing.position[1] = t;
                } else if str_eq(name, "PositionZ") {
                    thing.position[2] = t;
                } else if str_eq(name, "RHSetForwardX") {
                    thing.forward[0] = t;
                } else if str_eq(name, "RHSetForwardY") {
                    thing.forward[1] = t;
                } else if str_eq(name, "RHSetForwardZ") {
                    thing.forward[2] = t;
                } else if str_eq(name, "RHSetUpX") {
                    thing.up[0] = t;
                } else if str_eq(name, "RHSetUpY") {
                    thing.up[1] = t;
                } else if str_eq(name, "RHSetUpZ") {
                    thing.up[2] = t;
                }
            }
        }
        i += 1;
    }
    assert(bm.take(body@.len() as int) =~= bm);
    thing
}

/// The things of the `NewThing` blocks of a section body.
fn section_things(body: &[KvStatement<'_>], Ghost(bm): Ghost<Seq<KvStmtM>>) -> (r: Vec<TngThing>)
    requires
        stmts_match(body@, bm),
    ensures
        r@.len() == things_m(bm).len(),
        forall|k: int| 0 <= k < r@.len() ==> thing_matches(#[trigger] r@[k], things_m(bm)[k]),
{
    let mut things: Vec<TngThing> = Vec::new();
    let mut i: usize = 0;
    assert(bm.take(0) =~= Seq::<KvStmtM>::empty());
    while i < body.len()
        invariant
            stmts_match(body@, bm),
            i <= body@.len(),
            things@.len() == things_m(bm.take(i as int)).len(),
            forall|k: int| 0 <= k < things@.len() ==> thing_matches(#[trigger] things@[k], things_m(bm.take(i as int))[k]),
        decreases body@.len() - i,
    {
        let ghost st = bm[i as int];
        assert(stmt_matches(body@[i as int], st));
        assert(bm.take(i + 1).drop_last() =~= bm.take(i as int));
        if let KvStatement::Block { keyword, kind, body: inner } = &body[i] {
            if str_eq(*keyword, "NewThing") {
                let ghost im = match st {
                    KvStmtM::Block(_, _, b) => b,
                    _ => arbitrary(),
                };
                let t = parse_thing(*kind, inner.as_slice(), Ghost(im));
                things.push(t);
            }
        }
        i += 1;
    }
    assert(bm.take(body@.len() as int) =~= bm);
    things
}

/// The closed sections and the open one, by their views.
pub open spec fn state_matches(done: Seq<TngSection>, cur: Option<TngSection>, m: (Seq<SectionM>, Option<SectionM>)) -> bool {
    &&& sections_match(done, m.0)
    &&& match cur {
        Some(c) => m.1 matches Some(mc) && section_matches(c, mc),
        None => m.1 is None,
    }
}

impl Tng {
    /// Parses a `.tng` text into its sections (see [`tng_m`]).
    pub fn parse(input: &str) -> (r: Result<Tng, KvError>)
        requires
            input.spec_bytes().len() < usize::MAX,
        ensures
            match tng_m(input.spec_bytes()) {
                Ok(ms) => r matches Ok(t) && sections_match(t.sections@, ms),
                Err(x) => r matches Err(y) && err_matches(y, x),
            },
    {
        let mut parser = KvParser::new(input);
        let stmts = match parser.parse_statements() {
            Ok(v) => v,
            Err(x) => {
                return Err(x);
            },
        };
        let ghost sm = match statements_m(input.spec_bytes(), 0, 1) {
            Ok((s, _, _)) => s,
            Err(_) => arbitrary(),
        };
        let mut sections: Vec<TngSection> = Vec::new();
        let mut current: Option<TngSection> = None;
        assert(sm.take(0) =~= Seq::<KvStmtM>::empty());
        let mut i: usize = 0;
        while i < stmts.len()
            invariant
                stmts_match(stmts@, sm),
                i <= stmts@.len(),
                state_matches(sections@, current, sections_fold(sm.take(i as int))),
            decreases stmts@.len() - i,
        {
            let ghost st = sm[i as int];
            assert(stmt_matches(stmts@[i as int], st));
            assert(sm.take(i + 1).drop_last() =~= sm.take(i as int));
            if let KvStatement::Block { keyword, kind, body } = &stmts[i] {
                let ghost bm = match st {
                    KvStmtM::Block(_, _, b) => b,
                    _ => arbitrary(),
                };
                if str_eq(*keyword, "XXXSectionStart") {
                    let prev = current.take();
                    match prev {
                        Some(sec) => sections.push(sec),
                        None => {},
                    }
                    let things = section_things(body.as_slice(), Ghost(bm));
                    current = Some(TngSection { name: (*kind).to_owned(), things });
                } else if str_eq(*keyword, "NewThing") {
                    let thing = parse_thing(*kind, body.as_slice(), Ghost(bm));
                    let mut sec = match current.take() {
                        Some(c) => c,
                        None => {
                            let c = TngSection { name: String::new(), things: Vec::new() };
                            assert(encode_utf8(c.name@) =~= Seq::<u8>::empty());
                            c
                        },
                    };
                    sec.things.push(thing);
                    current = Some(sec);
                }
            }
            i += 1;
        }
        assert(sm.take(stmts@.len() as int) =~= sm);
        if let Some(sec) = current.take() {
            sections.push(sec);
        }
        Ok(Tng { sections })
    }
}

} // verus!
