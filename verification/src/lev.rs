//! Parts of Fable's `.lev` level files: the header (map dimensions and sound
//! themes), the size-prefixed soundmap cells, and the navigation graph's
//! leaf records.

use vstd::prelude::*;
use vstd::string::StringSliceAdditionalSpecFns;
use vstd::utf8::{encode_utf8, valid_utf8};

use crate::bytes::{
    str_from_utf8, take_bytes, take_u16, take_u32, take_u64, take_u8, u16_le, u32_le, u32s_le,
    u64_le, UnexpectedEnd,
};

verus! {

/// Size in bytes of the heightmap and sound palettes embedded in the header.
pub const PALETTE_SIZE: usize = 33792;

#[derive(Debug, Clone, Copy, PartialEq, Eq, Structural)]
pub enum LevError {
    /// A fixed-size value ran past the end of the input.
    Take(UnexpectedEnd),
    /// A run of raw bytes ran past the end of the input.
    Bytes(UnexpectedEnd),
    SoundThemeUtf8,
    NavSectionNameUtf8,
    /// A cell's size is smaller than the bytes its fields took.
    CellSizeUnderflow { size: u32, consumed: usize },
}

// ── header ────────────────────────────────────────────────────────────────────

#[derive(Debug, Clone)]
pub struct LevHeader {
    pub version: u16,
    pub obsolete_offset: u32,
    pub navigation_offset: u32,
    pub unique_id_count: u64,
    pub width: u32,
    pub height: u32,
    pub map_version: u32,
    pub ambient_sound_version: u32,
    pub checksum: u32,
    pub sound_themes: Vec<String>,
}

/// Where the fixed part of the header ends.
pub open spec fn header_fixed_len() -> int {
    67643
}

/// The failure of the fixed part of the header on `n` bytes, and where the
/// cursor stops: each field that fits is taken.
pub open spec fn header_fixed_error(n: int) -> Option<(LevError, int)> {
    let t = LevError::Take(UnexpectedEnd);
    let by = LevError::Bytes(UnexpectedEnd);
    if n < 4 {
        Some((t, 0))
    } else if n < 6 {
        Some((t, 4))
    } else if n < 9 {
        Some((by, 6))
    } else if n < 13 {
        Some((t, 9))
    } else if n < 17 {
        Some((t, 13))
    } else if n < 21 {
        Some((t, 17))
    } else if n < 25 {
        Some((t, 21))
    } else if n < 26 {
        Some((t, 25))
    } else if n < 30 {
        Some((t, 26))
    } else if n < 38 {
        Some((t, 30))
    } else if n < 42 {
        Some((t, 38))
    } else if n < 46 {
        Some((t, 42))
    } else if n < 47 {
        Some((t, 46))
    } else if n < 33839 {
        Some((by, 47))
    } else if n < 33843 {
        Some((t, 33839))
    } else if n < 33847 {
        Some((t, 33843))
    } else if n < 67639 {
        Some((by, 33847))
    } else if n < 67643 {
        Some((t, 67639))
    } else {
        None
    }
}

/// The sound themes from offset `p`, `k` of them: each a `u32` length and
/// that many bytes of UTF-8. Yields the themes' bytes and where they end, or
/// the error and where the cursor stops.
pub open spec fn themes_m(b: Seq<u8>, p: int, k: nat) -> Result<(Seq<Seq<u8>>, int), (LevError, int)>
    decreases k,
{
    if k == 0 {
        Ok((Seq::empty(), p))
    } else {
        match themes_m(b, p, (k - 1) as nat) {
            Ok((ts, q)) => if b.len() - q < 4 {
                Err((LevError::Take(UnexpectedEnd), q))
            } else {
                let l = u32_le(b.skip(q)) as int;
                if b.len() - (q + 4) < l {
                    Err((LevError::Bytes(UnexpectedEnd), q + 4))
                } else if !valid_utf8(b.subrange(q + 4, q + 4 + l)) {
                    Err((LevError::SoundThemeUtf8, q + 4 + l))
                } else {
                    Ok((ts.push(b.subrange(q + 4, q + 4 + l)), q + 4 + l))
                }
            },
            Err(e) => Err(e),
        }
    }
}

/// The number of named sound themes: the first slot is empty.
pub open spec fn theme_count(b: Seq<u8>) -> nat {
    let c = u32_le(b.skip(33843));
    if c == 0 {
        0
    } else {
        (c - 1) as nat
    }
}

/// The outcome of [`LevHeader::parse`] on `b`: the number of bytes taken,
/// or the error and where the cursor stops.
pub open spec fn lev_header_outcome(b: Seq<u8>) -> Result<int, (LevError, int)> {
    match header_fixed_error(b.len() as int) {
        Some(e) => Err(e),
        None => match themes_m(b, header_fixed_len(), theme_count(b)) {
            Ok((_, q)) => Ok(q),
            Err(e) => Err(e),
        },
    }
}

/// Whether `h` holds the fields the header at the front of `b` encodes.
pub open spec fn lev_header_from_bytes(h: LevHeader, b: Seq<u8>) -> bool {
    &&& h.version == u16_le(b.skip(4))
    &&& h.obsolete_offset == u32_le(b.skip(13))
    &&& h.navigation_offset == u32_le(b.skip(21))
    &&& h.map_version == u32_le(b.skip(26))
    &&& h.unique_id_count == u64_le(b.skip(30))
    &&& h.width == u32_le(b.skip(38))
    &&& h.height == u32_le(b.skip(42))
    &&& h.ambient_sound_version == u32_le(b.skip(33839))
    &&& h.checksum == u32_le(b.skip(67639))
    &&& themes_m(b, header_fixed_len(), theme_count(b)) matches Ok((ts, _)) && h.sound_themes@.map_values(
        |s: String| encode_utf8(s@),
    ) == ts
}

impl LevHeader {
    pub fn parse(i: &mut &[u8]) -> (r: Result<LevHeader, LevError>)
        ensures
            match lev_header_outcome(old(i)@) {
                Ok(q) => r matches Ok(h) && lev_header_from_bytes(h, old(i)@) && final(i)@ == old(i)@.skip(q),
                Err((e, q)) => r == Err::<LevHeader, LevError>(e) && final(i)@ == old(i)@.skip(q),
            },
    {
        let ghost b = i@;
        let t = LevError::Take(UnexpectedEnd);
        let by = LevError::Bytes(UnexpectedEnd);
        let _header_size = match take_u32(i) { Ok(v) => v, Err(_) => return Err(t) };
        let version = match take_u16(i) { Ok(v) => v, Err(_) => return Err(t) };
        assert(i@ =~= b.skip(6));
        match take_bytes(i, 3) { Ok(_) => {}, Err(_) => return Err(by) };
        assert(i@ =~= b.skip(9));
        let _unknown_2 = match take_u32(i) { Ok(v) => v, Err(_) => return Err(t) };
        assert(i@ =~= b.skip(13));
        let obsolete_offset = match take_u32(i) { Ok(v) => v, Err(_) => return Err(t) };
        assert(i@ =~= b.skip(17));
        let _unknown_3 = match take_u32(i) { Ok(v) => v, Err(_) => return Err(t) };
        assert(i@ =~= b.skip(21));
        let navigation_offset = match take_u32(i) { Ok(v) => v, Err(_) => return Err(t) };
        assert(i@ =~= b.skip(25));
        let _map_header_size = match take_u8(i) { Ok(v) => v, Err(_) => return Err(t) };
        assert(i@ =~= b.skip(26));
        let map_version = match take_u32(i) { Ok(v) => v, Err(_) => return Err(t) };
        assert(i@ =~= b.skip(30));
        let unique_id_count = match take_u64(i) { Ok(v) => v, Err(_) => return Err(t) };
        assert(i@ =~= b.skip(38));
        let width = match take_u32(i) { Ok(v) => v, Err(_) => return Err(t) };
        assert(i@ =~= b.skip(42));
        let height = match take_u32(i) { Ok(v) => v, Err(_) => return Err(t) };
        assert(i@ =~= b.skip(46));
        let _always_true = match take_u8(i) { Ok(v) => v, Err(_) => return Err(t) };
        assert(i@ =~= b.skip(47));
        match take_bytes(i, PALETTE_SIZE) { Ok(_) => {}, Err(_) => return Err(by) };
        assert(i@ =~= b.skip(33839));
        let ambient_sound_version = match take_u32(i) { Ok(v) => v, Err(_) => return Err(t) };
        assert(i@ =~= b.skip(33843));
        let sound_themes_count = match take_u32(i) { Ok(v) => v, Err(_) => return Err(t) };
        assert(i@ =~= b.skip(33847));
        match take_bytes(i, PALETTE_SIZE) { Ok(_) => {}, Err(_) => return Err(by) };
        assert(i@ =~= b.skip(67639));
        let checksum = match take_u32(i) { Ok(v) => v, Err(_) => return Err(t) };
        assert(i@ =~= b.skip(67643));
        let count = sound_themes_count.saturating_sub(1);
        assert(count == theme_count(b));
        let rest: &[u8] = *i;
        let (themes, taken) = read_themes(rest, count, Ghost(b));
        let tail = slice_from(rest, taken);
        *i = tail;
        let sound_themes = match themes {
            Ok(v) => v,
            Err(e) => return Err(e),
        };
        Ok(LevHeader {
            version,
            obsolete_offset,
            navigation_offset,
            unique_id_count,
            width,
            height,
            map_version,
            ambient_sound_version,
            checksum,
            sound_themes,
        })
    }
}

/// The bytes of `s` from `k` on.
fn slice_from(s: &[u8], k: usize) -> (r: &[u8])
    requires
        k <= s@.len(),
    ensures
        r@ == s@.skip(k as int),
{
    let (_, r) = s.split_at(k);
    r
}

/// Reads `count` sound themes off the front of `rest`, the bytes of `b` from
/// the end of the header's fixed part on; yields them and how many bytes
/// were taken.
fn read_themes(rest: &[u8], count: u32, Ghost(b): Ghost<Seq<u8>>) -> (r: (Result<Vec<String>, LevError>, usize))
    requires
        b.len() >= 67643,
        rest@ == b.skip(67643),
        count == theme_count(b),
    ensures
        r.1 <= rest@.len(),
        match themes_m(b, 67643, count as nat) {
            Ok((ts, q)) => r.0 matches Ok(v) && v@.map_values(|s: String| encode_utf8(s@)) == ts
                && r.1 == q - 67643,
            Err((e, q)) => r.0 == Err::<Vec<String>, LevError>(e) && r.1 == q - 67643,
        },
{
    let mut cur: &[u8] = rest;
    let mut sound_themes: Vec<String> = Vec::new();
    let mut k: u32 = 0;
    assert(sound_themes@.map_values(|s: String| encode_utf8(s@)) =~= Seq::<Seq<u8>>::empty());
    assert(rest@ =~= b.skip(67643));
    while k < count
        invariant
            k <= count,
            count == theme_count(b),
            b.len() >= 67643,
            rest@ == b.skip(67643),
            themes_m(b, 67643, k as nat) matches Ok((ts, q)) && sound_themes@.map_values(
                |s: String| encode_utf8(s@),
            ) == ts && cur@ == b.skip(q) && 67643 <= q <= b.len(),
        decreases count - k,
    {
        let ghost q = b.len() - cur@.len();
        let ghost c0 = cur@;
        let len = match take_u32(&mut cur) {
            Ok(v) => v,
            Err(_) => {
                proof {
                    lemma_themes_stop(b, (k + 1) as nat, count as nat);
                }
                return (Err(LevError::Take(UnexpectedEnd)), rest.len() - cur.len());
            },
        };
        let ghost before = sound_themes@;
        let bytes = match take_bytes(&mut cur, len as usize) {
            Ok(v) => v,
            Err(_) => {
                proof {
                    lemma_themes_stop(b, (k + 1) as nat, count as nat);
                }
                return (Err(LevError::Bytes(UnexpectedEnd)), rest.len() - cur.len());
            },
        };
        assert(bytes@ =~= b.subrange(q + 4, q + 4 + len));
        let theme = match str_from_utf8(bytes) {
            Some(s) => s,
            None => {
                proof {
                    lemma_themes_stop(b, (k + 1) as nat, count as nat);
                }
                return (Err(LevError::SoundThemeUtf8), rest.len() - cur.len());
            },
        };
        sound_themes.push(theme.to_owned());
        proof {
            assert(sound_themes@.map_values(|s: String| encode_utf8(s@)) =~= before.map_values(
                |s: String| encode_utf8(s@),
            ).push(bytes@));
            assert(cur@ =~= b.skip(q + 4 + len));
        }
        k += 1;
    }
    (Ok(sound_themes), rest.len() - cur.len())
}

/// Reads `count` little-endian `u32`s off the front of `rest`; yields them,
/// or fails when the input runs out, and how many bytes were taken (every
/// whole value).
fn read_u32s(rest: &[u8], count: u32) -> (r: (Result<Vec<u32>, UnexpectedEnd>, usize))
    ensures
        r.1 <= rest@.len(),
        r.1 % 4 == 0,
        rest@.len() >= 4 * count ==> (r.0 matches Ok(v) && v@ == u32s_le(rest@, count as nat) && r.1 == 4 * count),
        rest@.len() < 4 * count ==> r.0 is Err && rest@.len() - r.1 < 4,
{
    let mut cur: &[u8] = rest;
    let mut out: Vec<u32> = Vec::new();
    let mut k: u32 = 0;
    while k < count
        invariant
            k <= count,
            4 * k <= rest@.len(),
            cur@ == rest@.skip(4 * k),
            out@ == u32s_le(rest@, k as nat),
        decreases count - k,
    {
        let x = match take_u32(&mut cur) {
            Ok(v) => v,
            Err(_) => {
                return (Err(UnexpectedEnd), rest.len() - cur.len());
            },
        };
        out.push(x);
        k += 1;
        assert(cur@ =~= rest@.skip(4 * k));
        assert(out@ =~= u32s_le(rest@, k as nat));
    }
    (Ok(out), rest.len() - cur.len())
}

/// An error at theme `j` stops the reading for every later count.
proof fn lemma_themes_stop(b: Seq<u8>, j: nat, n: nat)
    requires
        j <= n,
        themes_m(b, 67643, j) is Err,
    ensures
        themes_m(b, 67643, n) == themes_m(b, 67643, j),
    decreases n - j,
{
    if j < n {
        lemma_themes_stop(b, j, (n - 1) as nat);
    }
}

// ── soundmap cells ────────────────────────────────────────────────────────────

/// A single soundmap cell. Cells run consecutively from the end of the
/// heightmap up to the navigation graph at `header.navigation_offset`.
#[derive(Debug, Clone, Copy)]
pub struct LevSoundCell {
    pub size: u32,
    pub version: u8,
    pub sound_theme: (u8, u8, u8),
    pub sound_theme_strength: (u8, u8),
    pub sound_index: u8,
}

/// The outcome of [`LevSoundCell::parse`] on `b`: the bytes taken, or the
/// error and where the cursor stops.
pub open spec fn sound_cell_outcome(b: Seq<u8>) -> Result<int, (LevError, int)> {
    let t = LevError::Take(UnexpectedEnd);
    let n = b.len() as int;
    if n < 4 {
        Err((t, 0))
    } else if n < 11 {
        Err((t, n))
    } else {
        let size = u32_le(b) as int;
        if size < 11 {
            Err((LevError::CellSizeUnderflow { size: size as u32, consumed: 11 }, 11))
        } else if n < size {
            Err((LevError::Bytes(UnexpectedEnd), 11))
        } else {
            Ok(size)
        }
    }
}

impl LevSoundCell {
    /// Reads a cell: its size, its fields, and the rest of its `size` bytes,
    /// which are skipped.
    pub fn parse(i: &mut &[u8]) -> (r: Result<LevSoundCell, LevError>)
        ensures
            match sound_cell_outcome(old(i)@) {
                Ok(q) => r matches Ok(c) && c.size == u32_le(old(i)@) && c.version == old(i)@[4]
                    && c.sound_theme == (old(i)@[5], old(i)@[6], old(i)@[7])
                    && c.sound_theme_strength == (old(i)@[8], old(i)@[9])
                    && c.sound_index == old(i)@[10] && final(i)@ == old(i)@.skip(q),
                Err((e, q)) => r == Err::<LevSoundCell, LevError>(e) && final(i)@ == old(i)@.skip(q),
            },
    {
        let ghost b = i@;
        let t = LevError::Take(UnexpectedEnd);
        let start_len = i.len();
        let size = match take_u32(i) { Ok(v) => v, Err(_) => return Err(t) };
        let version = match take_u8(i) { Ok(v) => v, Err(_) => return Err(t) };
        let a = match take_u8(i) { Ok(v) => v, Err(_) => return Err(t) };
        let bb = match take_u8(i) { Ok(v) => v, Err(_) => return Err(t) };
        let c = match take_u8(i) { Ok(v) => v, Err(_) => return Err(t) };
        let d = match take_u8(i) { Ok(v) => v, Err(_) => return Err(t) };
        let e = match take_u8(i) { Ok(v) => v, Err(_) => return Err(t) };
        let sound_index = match take_u8(i) { Ok(v) => v, Err(_) => {
            assert(i@ =~= b.skip(b.len() as int));
            return Err(t);
        } };
        assert(i@ =~= b.skip(11));
        let consumed = start_len - i.len();
        let remaining = match (size as usize).checked_sub(consumed) {
            Some(v) => v,
            None => return Err(LevError::CellSizeUnderflow { size, consumed }),
        };
        match take_bytes(i, remaining) {
            Ok(_) => {},
            Err(_) => return Err(LevError::Bytes(UnexpectedEnd)),
        }
        assert(i@ =~= b.skip(size as int));
        Ok(LevSoundCell {
            size,
            version,
            sound_theme: (a, bb, c),
            sound_theme_strength: (d, e),
            sound_index,
        })
    }
}

// ── navigation ────────────────────────────────────────────────────────────────

#[derive(Debug, Clone)]
pub struct LevNavigationName {
    pub name: String,
    pub start: u32,
}

/// Region membership and adjacency for a leaf node.
#[derive(Debug, Clone)]
pub struct LevNavigationLeaf {
    /// Index of the navigation region this leaf belongs to.
    pub region_id: u32,
    /// Path-finding cost preference for this leaf.
    pub preferability: u8,
    /// Ids of neighbouring leaf nodes.
    pub neighbours: Vec<u32>,
}

/// The outcome of [`LevNavigationLeaf::parse`] on `b`: the bytes taken, or
/// where the cursor stops when a value runs out (every whole neighbour id
/// is taken).
pub open spec fn leaf_outcome(b: Seq<u8>) -> Result<int, int> {
    let n = b.len() as int;
    if n < 4 {
        Err(0)
    } else if n < 5 {
        Err(4)
    } else if n < 9 {
        Err(5)
    } else {
        let count = u32_le(b.skip(5)) as int;
        if n - 9 >= 4 * count {
            Ok(9 + 4 * count)
        } else {
            Err(9 + 4 * ((n - 9) / 4))
        }
    }
}

impl LevNavigationLeaf {
    pub fn parse(i: &mut &[u8]) -> (r: Result<LevNavigationLeaf, LevError>)
        ensures
            match leaf_outcome(old(i)@) {
                Ok(q) => r matches Ok(l) && l.region_id == u32_le(old(i)@) && l.preferability == old(i)@[4]
                    && l.neighbours@ == u32s_le(old(i)@.skip(9), u32_le(old(i)@.skip(5)) as nat)
                    && final(i)@ == old(i)@.skip(q),
                Err(q) => r == Err::<LevNavigationLeaf, LevError>(LevError::Take(UnexpectedEnd))
                    && final(i)@ == old(i)@.skip(q),
            },
    {
        let ghost b = i@;
        let t = LevError::Take(UnexpectedEnd);
        let region_id = match take_u32(i) { Ok(v) => v, Err(_) => return Err(t) };
        let preferability = match take_u8(i) { Ok(v) => v, Err(_) => return Err(t) };
        assert(i@ =~= b.skip(5));
        let neighbour_count = match take_u32(i) { Ok(v) => v, Err(_) => return Err(t) };
        assert(i@ =~= b.skip(9));
        let rest: &[u8] = *i;
        let (res, taken) = read_u32s(rest, neighbour_count);
        *i = slice_from(rest, taken);
        proof {
            if res is Err {
                assert((b.len() - 9) / 4 == taken / 4) by (nonlinear_arith)
                    requires
                        b.len() - 9 == rest@.len(),
                        taken % 4 == 0,
                        rest@.len() - taken < 4,
                        taken <= rest@.len(),
                ;
            }
        }
        let neighbours = match res {
            Ok(v) => v,
            Err(_) => return Err(t),
        };
        Ok(LevNavigationLeaf { region_id, preferability, neighbours })
    }
}

} // verus!
