//! Fable's `.wld` world-definition text files.
//!
//! A `.wld` lists `NewMap ... EndMap;` blocks, each placing a level file
//! (`.lev` + `.tng`) at a world-grid position.

use vstd::prelude::*;
use vstd::string::StringSliceAdditionalSpecFns;
use vstd::utf8::encode_utf8;
use crate::bytes::str_eq;
use crate::def::text::number::{i32_of, parse_i32, parse_u32, parse_u64, u32_of, u64_of};
use crate::kv::{
    err_matches, statements_m, stmt_matches, stmts_match, val_matches, KvError, KvErr, KvParser, KvStatement,
    KvStmtM, KvValM, KvValue,
};

verus! {

/// A parsed world: its top-level fields, in order, and its maps.
#[derive(Debug, Clone, PartialEq)]
pub struct Wld {
    pub header_stmts: Vec<(String, KvValueOwned)>,
    pub maps: Vec<WldMap>,
}

/// One `NewMap` block: a level placed on the world grid.
#[derive(Debug, Clone, PartialEq)]
pub struct WldMap {
    pub map_number: u32,
    pub map_x: i32,
    pub map_y: i32,
    pub level_name: String,
    pub level_script_name: String,
    pub map_uid: u64,
    pub is_sea: bool,
    pub loaded_on_proximity: bool,
}

/// An owned [`KvValue`], for storing in parsed structures.
#[derive(Debug, Clone, PartialEq)]
pub enum KvValueOwned {
    String(String),
    Number(String),
    Ident(String),
    Bool(bool),
}

// ── the model ─────────────────────────────────────────────────────────────────

/// A map by its values, its texts as bytes.
pub struct WldMapM {
    pub map_number: int,
    pub map_x: int,
    pub map_y: int,
    pub level_name: Seq<u8>,
    pub level_script_name: Seq<u8>,
    pub map_uid: int,
    pub is_sea: bool,
    pub loaded_on_proximity: bool,
}

/// A parsed number, or 0 where the text is none.
pub open spec fn or_zero(o: Option<int>) -> int {
    match o {
        Some(v) => v,
        None => 0,
    }
}

/// The map a `NewMap <kind>;` block starts from: its number read from
/// `kind` (0 where that is no `u32`), everything else zero or empty.
pub open spec fn map_start(kind: Seq<u8>) -> WldMapM {
    WldMapM {
        map_number: or_zero(u32_of(kind)),
        map_x: 0,
        map_y: 0,
        level_name: Seq::empty(),
        level_script_name: Seq::empty(),
        map_uid: 0,
        is_sea: false,
        loaded_on_proximity: false,
    }
}

/// The map `m` after the block statement `st`: each known field of the right
/// kind of value sets its member (a number that does not parse sets 0);
/// anything else leaves the map as it is.
pub open spec fn apply_field(m: WldMapM, st: KvStmtM) -> WldMapM {
    match st {
        KvStmtM::Field(name, v) => if name == "MapX".spec_bytes() {
            match v {
                KvValM::Number(n) => WldMapM { map_x: or_zero(i32_of(n)), ..m },
                _ => m,
            }
        } else if name == "MapY".spec_bytes() {
            match v {
                KvValM::Number(n) => WldMapM { map_y: or_zero(i32_of(n)), ..m },
                _ => m,
            }
        } else if name == "LevelName".spec_bytes() {
            match v {
                KvValM::Str(s) => WldMapM { level_name: s, ..m },
                _ => m,
            }
        } else if name == "LevelScriptName".spec_bytes() {
            match v {
                KvValM::Str(s) => WldMapM { level_script_name: s, ..m },
                KvValM::Ident(s) => WldMapM { level_script_name: s, ..m },
                _ => m,
            }
        } else if name == "MapUID".spec_bytes() {
            match v {
                KvValM::Number(n) => WldMapM { map_uid: or_zero(u64_of(n)), ..m },
                _ => m,
            }
        } else if name == "IsSea".spec_bytes() {
            match v {
                KvValM::Bool(x) => WldMapM { is_sea: x, ..m },
                _ => m,
            }
        } else if name == "LoadedOnPlayerProximity".spec_bytes() {
            match v {
                KvValM::Bool(x) => WldMapM { loaded_on_proximity: x, ..m },
                _ => m,
            }
        } else {
            m
        },
        KvStmtM::Block(_, _, _) => m,
    }
}

/// The map of a `NewMap <kind>;` block with statements `body`.
pub open spec fn map_m(kind: Seq<u8>, body: Seq<KvStmtM>) -> WldMapM
    decreases body.len(),
{
    if body.len() == 0 {
        map_start(kind)
    } else {
        apply_field(map_m(kind, body.drop_last()), body.last())
    }
}

/// A `MapX` (`MapY`) field with a number sets the map's `map_x` (`map_y`)
/// to the `i32` that number's text denotes (0 where it denotes none) and
/// leaves everything else: the last such field of a block decides.
pub proof fn lemma_map_position_fields(kind: Seq<u8>, body: Seq<KvStmtM>, n: Seq<u8>)
    ensures
        ({
            let m = map_m(kind, body);
            let x = map_m(kind, body.push(KvStmtM::Field("MapX".spec_bytes(), KvValM::Number(n))));
            x == WldMapM { map_x: or_zero(i32_of(n)), ..m }
        }),
        ({
            let m = map_m(kind, body);
            let y = map_m(kind, body.push(KvStmtM::Field("MapY".spec_bytes(), KvValM::Number(n))));
            y == WldMapM { map_y: or_zero(i32_of(n)), ..m }
        }),
{
    reveal_strlit("MapX");
    reveal_strlit("MapY");
    assert("MapY"@[3] != "MapX"@[3]);
    vstd::utf8::encode_utf8_decode_utf8("MapX"@);
    vstd::utf8::encode_utf8_decode_utf8("MapY"@);
    assert(body.push(KvStmtM::Field("MapX".spec_bytes(), KvValM::Number(n))).drop_last() =~= body);
    assert(body.push(KvStmtM::Field("MapY".spec_bytes(), KvValM::Number(n))).drop_last() =~= body);
}

/// The top-level fields among `s`, in order.
pub open spec fn header_m(s: Seq<KvStmtM>) -> Seq<(Seq<u8>, KvValM)>
    decreases s.len(),
{
    if s.len() == 0 {
        Seq::empty()
    } else {
        let prev = header_m(s.drop_last());
        match s.last() {
            KvStmtM::Field(n, v) => prev.push((n, v)),
            KvStmtM::Block(_, _, _) => prev,
        }
    }
}

/// The maps of the `NewMap` blocks among `s`, in order; other blocks are
/// skipped.
pub open spec fn maps_m(s: Seq<KvStmtM>) -> Seq<WldMapM>
    decreases s.len(),
{
    if s.len() == 0 {
        Seq::empty()
    } else {
        let prev = maps_m(s.drop_last());
        match s.last() {
            KvStmtM::Block(k, kind, body) => if k == "NewMap".spec_bytes() {
                prev.push(map_m(kind, body))
            } else {
                prev
            },
            KvStmtM::Field(_, _) => prev,
        }
    }
}

/// The world a text holds: its header fields and its maps; or the error of
/// its statements.
pub open spec fn wld_m(b: Seq<u8>) -> Result<(Seq<(Seq<u8>, KvValM)>, Seq<WldMapM>), KvErr> {
    match statements_m(b, 0, 1) {
        Ok((s, _, _)) => Ok((header_m(s), maps_m(s))),
        Err(x) => Err(x),
    }
}

/// The owned value `o` is the model's `m`.
pub open spec fn owned_matches(o: KvValueOwned, m: KvValM) -> bool {
    match o {
        KvValueOwned::String(s) => m matches KvValM::Str(t) && encode_utf8(s@) == t,
        KvValueOwned::Number(s) => m matches KvValM::Number(t) && encode_utf8(s@) == t,
        KvValueOwned::Ident(s) => m matches KvValM::Ident(t) && encode_utf8(s@) == t,
        KvValueOwned::Bool(x) => m matches KvValM::Bool(y) && x == y,
    }
}

/// The map `w` is the model's `m`.
pub open spec fn map_matches(w: WldMap, m: WldMapM) -> bool {
    &&& w.map_number == m.map_number
    &&& w.map_x == m.map_x
    &&& w.map_y == m.map_y
    &&& encode_utf8(w.level_name@) == m.level_name
    &&& encode_utf8(w.level_script_name@) == m.level_script_name
    &&& w.map_uid == m.map_uid
    &&& w.is_sea == m.is_sea
    &&& w.loaded_on_proximity == m.loaded_on_proximity
}

/// The world `w` is the model's header fields `h` and maps `ms`.
pub open spec fn wld_matches(w: Wld, h: Seq<(Seq<u8>, KvValM)>, ms: Seq<WldMapM>) -> bool {
    &&& w.header_stmts@.len() == h.len()
    &&& forall|i: int|
        0 <= i < h.len() ==> encode_utf8((#[trigger] w.header_stmts@[i]).0@) == h[i].0 && owned_matches(
            w.header_stmts@[i].1,
            h[i].1,
        )
    &&& w.maps@.len() == ms.len()
    &&& forall|i: int| 0 <= i < ms.len() ==> map_matches(#[trigger] w.maps@[i], ms[i])
}

// ── the code ──────────────────────────────────────────────────────────────────

impl<'a> KvValue<'a> {
    /// The value, owning its text.
    fn into_owned(self) -> (r: KvValueOwned)
        ensures
            forall|m: KvValM| val_matches(self, m) ==> owned_matches(r, m),
    {
        match self {
            KvValue::String(s) => KvValueOwned::String(s.to_owned()),
            KvValue::Number(s) => KvValueOwned::Number(s.to_owned()),
            KvValue::Ident(s) => KvValueOwned::Ident(s.to_owned()),
            KvValue::Bool(b) => KvValueOwned::Bool(b),
        }
    }
}

/// A parsed number, or 0.
fn u32_or_zero(s: &str) -> (r: u32)
    ensures
        r == or_zero(u32_of(s.spec_bytes())),
{
    match parse_u32(s) {
        Some(v) => v,
        None => 0,
    }
}

fn i32_or_zero(s: &str) -> (r: i32)
    ensures
        r == or_zero(i32_of(s.spec_bytes())),
{
    match parse_i32(s) {
        Some(v) => v,
        None => 0,
    }
}

fn u64_or_zero(s: &str) -> (r: u64)
    ensures
        r == or_zero(u64_of(s.spec_bytes())),
{
    match parse_u64(s) {
        Some(v) => v,
        None => 0,
    }
}

/// The map of a `NewMap <kind>;` block (see [`map_m`]).
fn parse_map(map_number_str: &str, body: &[KvStatement<'_>], Ghost(bm): Ghost<Seq<KvStmtM>>) -> (r: WldMap)
    requires
        stmts_match(body@, bm),
    ensures
        map_matches(r, map_m(map_number_str.spec_bytes(), bm)),
{
    let ghost kind = map_number_str.spec_bytes();
    let mut map = WldMap {
        map_number: u32_or_zero(map_number_str),
        map_x: 0,
        map_y: 0,
        level_name: String::new(),
        level_script_name: String::new(),
        map_uid: 0,
        is_sea: false,
        loaded_on_proximity: false,
    };
    assert(map_matches(map, map_m(kind, bm.take(0)))) by {
        assert(bm.take(0) =~= Seq::<KvStmtM>::empty());
    }
    let mut i: usize = 0;
    while i < body.len()
        invariant
            stmts_match(body@, bm),
            kind == map_number_str.spec_bytes(),
            i <= body@.len(),
            map_matches(map, map_m(kind, bm.take(i as int))),
        decreases body@.len() - i,
    {
        let ghost st = bm[i as int];
        assert(stmt_matches(body@[i as int], st));
        assert(bm.take(i + 1).drop_last() =~= bm.take(i as int));
        if let KvStatement::Field(name, value) = &body[i] {
            if str_eq(*name, "MapX") {
                if let KvValue::Number(n) = value {
                    map.map_x = i32_or_zero(*n);
                }
            } else if str_eq(*name, "MapY") {
                if let KvValue::Number(n) = value {
                    map.map_y = i32_or_zero(*n);
                }
            } else if str_eq(*name, "LevelName") {
                if let KvValue::String(s) = value {
                    map.level_name = (*s).to_owned();
                }
            } else if str_eq(*name, "LevelScriptName") {
                match value {
                    KvValue::String(s) | KvValue::Ident(s) => {
                        map.level_script_name = (*s).to_owned();
                    },
                    _ => {},
                }
            } else if str_eq(*name, "MapUID") {
                if let KvValue::Number(n) = value {
                    map.map_uid = u64_or_zero(*n);
                }
            } else if str_eq(*name, "IsSea") {
                if let KvValue::Bool(b) = value {
                    map.is_sea = *b;
                }
            } else if str_eq(*name, "LoadedOnPlayerProximity") {
                if let KvValue::Bool(b) = value {
                    map.loaded_on_proximity = *b;
                }
            }
        }
        i += 1;
    }
    assert(bm.take(body@.len() as int) =~= bm);
    map
}

impl Wld {
    /// Parses a `.wld` text: its top-level fields, in order, and the maps of
    /// its `NewMap` blocks (see [`wld_m`]).
    pub fn parse(input: &str) -> (r: Result<Wld, KvError>)
        requires
            input.spec_bytes().len() < usize::MAX,
        ensures
            match wld_m(input.spec_bytes()) {
                Ok((h, ms)) => r matches Ok(w) && wld_matches(w, h, ms),
                Err(x) => r matches Err(y) && err_matches(y, x),
            },
    {
        let mut parser = KvParser::new(input);
        let stmts = match parser.parse_statements() {
            Ok(v) => v,
            Err(x) => {
                return Err(x);
            },
        };
        let ghost sm = match statements_m(input.spec_bytes(), 0, 1) {
            Ok((s, _, _)) => s,
            Err(_) => arbitrary(),
        };
        let mut header_stmts: Vec<(String, KvValueOwned)> = Vec::new();
        let mut maps: Vec<WldMap> = Vec::new();
        let mut i: usize = 0;
        while i < stmts.len()
            invariant
                stmts_match(stmts@, sm),
                i <= stmts@.len(),
                wld_matches(Wld { header_stmts, maps }, header_m(sm.take(i as int)), maps_m(sm.take(i as int))),
            decreases stmts@.len() - i,
        {
            let ghost st = sm[i as int];
            assert(stmt_matches(stmts@[i as int], st));
            assert(sm.take(i + 1).drop_last() =~= sm.take(i as int));
            match &stmts[i] {
                KvStatement::Block { keyword, kind, body } => {
                    if str_eq(*keyword, "NewMap") {
                        let ghost bm = match st {
                            KvStmtM::Block(_, _, b) => b,
                            _ => arbitrary(),
                        };
                        let m = parse_map(*kind, body.as_slice(), Ghost(bm));
                        maps.push(m);
                    }
                },
                KvStatement::Field(name, value) => {
                    let owned = value.into_owned();
                    header_stmts.push(((*name).to_owned(), owned));
                },
            }
            i += 1;
        }
        assert(sm.take(stmts@.len() as int) =~= sm);
        Ok(Wld { header_stmts, maps })
    }
}

} // verus!
