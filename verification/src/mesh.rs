//! The integer building blocks of Fable's mesh assets (the tagged 3D model
//! format stored in `.big` archives): the semi-compressed sections, the
//! null-terminated names, materials, primitive blocks and the expansion of
//! their triangle lists and strips into index lists.

use vstd::prelude::*;
use vstd::string::StringSliceAdditionalSpecFns;
use vstd::utf8::{encode_utf8, valid_utf8};
use crate::bytes::{append_bytes, str_from_utf8, take_bytes, take_u16, take_u32, take_u8, u16_le, u32_le, UnexpectedEnd};
use crate::kv::find_byte;
use crate::texture::{bytes_result, lzo_decompress, lzo_decompressed, LzoError};

pub mod cloth;
pub mod primitive;
pub mod layout;

verus! {

#[derive(Debug, Clone, Copy, PartialEq, Eq)]
pub enum MeshError {
    /// A fixed-size value ran past the end of the input.
    Take(UnexpectedEnd),
    /// A run of raw bytes ran past the end of the input.
    Bytes(UnexpectedEnd),
    Decompress(LzoError),
    /// A name is not UTF-8.
    Utf8,
}

// ── semi-compressed sections ──────────────────────────────────────────────────

/// The raw part of a section: `rest` more bytes from `p`, after the
/// decompressed part `t`; with the bytes taken.
pub open spec fn section_tail(b: Seq<u8>, p: int, t: Seq<u8>, rest: int) -> (Result<Seq<u8>, MeshError>, int) {
    if rest > 0 {
        if b.len() - p < rest {
            (Err(MeshError::Bytes(UnexpectedEnd)), p)
        } else {
            (Ok(t + b.subrange(p, p + rest)), p + rest)
        }
    } else {
        (Ok(t), p)
    }
}

/// A semi-compressed section of `size` bytes at the front of `b`: a
/// little-endian `u16` length (`0xffff` announcing a `u32` one), that many
/// bytes of LZO data decompressed into at most `size` bytes, then raw bytes
/// up to `size`. The section or the error, and the bytes taken.
pub open spec fn section_m(b: Seq<u8>, size: usize) -> (Result<Seq<u8>, MeshError>, int) {
    let t = MeshError::Take(UnexpectedEnd);
    if b.len() < 2 {
        (Err(t), 0)
    } else if u16_le(b) == 0xffff && b.len() < 6 {
        (Err(t), 2)
    } else {
        let clen: int = if u16_le(b) == 0xffff {
            u32_le(b.skip(2)) as int
        } else {
            u16_le(b) as int
        };
        let p: int = if u16_le(b) == 0xffff {
            6
        } else {
            2
        };
        if clen > 0 {
            if b.len() - p < clen {
                (Err(MeshError::Bytes(UnexpectedEnd)), p)
            } else {
                match lzo_decompressed(b.subrange(p, p + clen), size) {
                    Err(e) => (Err(MeshError::Decompress(e)), p + clen),
                    Ok(d) => section_tail(b, p + clen, d, size - d.len()),
                }
            }
        } else {
            section_tail(b, p, Seq::empty(), size as int)
        }
    }
}

/// Reads a semi-compressed section of `size` bytes (see [`section_m`]).
pub fn decompress_section(i: &mut &[u8], size: usize) -> (r: Result<Vec<u8>, MeshError>)
    ensures
        bytes_result(r) == section_m(old(i)@, size).0,
        final(i)@ == old(i)@.skip(section_m(old(i)@, size).1),
        r matches Ok(v) ==> v@.len() == size,
{
    let ghost b = i@;
    let short_len = match take_u16(i) {
        Ok(v) => v,
        Err(e) => {
            assert(i@ =~= b.skip(0));
            return Err(MeshError::Take(e));
        },
    };
    let compressed_len: usize = if short_len == 0xffff {
        match take_u32(i) {
            Ok(v) => v as usize,
            Err(e) => {
                return Err(MeshError::Take(e));
            },
        }
    } else {
        short_len as usize
    };
    proof {
        if short_len == 0xffff {
            assert(b.skip(2).skip(4) =~= b.skip(6));
        }
    }
    let mut out: Vec<u8> = Vec::new();
    let mut remaining = size;
    if compressed_len > 0 {
        let ghost p = b.len() - i@.len();
        let input = match take_bytes(i, compressed_len) {
            Ok(x) => x,
            Err(e) => {
                return Err(MeshError::Bytes(e));
            },
        };
        assert(input@ =~= b.subrange(p, p + compressed_len));
        assert(i@ =~= b.skip(p + compressed_len));
        let decompressed = match lzo_decompress(input, size) {
            Ok(d) => d,
            Err(e) => {
                return Err(MeshError::Decompress(e));
            },
        };
        remaining = size - decompressed.len();
        out = decompressed;
    }
    if remaining > 0 {
        let ghost p = b.len() - i@.len();
        let raw = match take_bytes(i, remaining) {
            Ok(x) => x,
            Err(e) => {
                return Err(MeshError::Bytes(e));
            },
        };
        assert(raw@ =~= b.subrange(p, p + remaining));
        assert(i@ =~= b.skip(p + remaining));
        append_bytes(&mut out, raw);
    }
    Ok(out)
}

// ── names ─────────────────────────────────────────────────────────────────────

/// A null-terminated UTF-8 name at the front of `b`: its bytes or the
/// error, and the bytes taken (the terminator included; none when there is
/// no terminator).
pub open spec fn name_m(b: Seq<u8>) -> (Result<Seq<u8>, MeshError>, int) {
    match find_byte(b, 0, 0) {
        None => (Err(MeshError::Bytes(UnexpectedEnd)), 0),
        Some(z) => if valid_utf8(b.take(z)) {
            (Ok(b.take(z)), z + 1)
        } else {
            (Err(MeshError::Utf8), z + 1)
        },
    }
}

/// The first `c` at or after `p` lies in `b`, at or after `p`.
proof fn lemma_find_byte_range(b: Seq<u8>, p: int, c: u8)
    ensures
        find_byte(b, p, c) matches Some(z) ==> p <= z < b.len() && b[z] == c,
    decreases b.len() - p,
{
    if 0 <= p < b.len() && b[p] != c {
        lemma_find_byte_range(b, p + 1, c);
    }
}

/// A name takes no more bytes than there are.
pub proof fn lemma_name_len(b: Seq<u8>)
    ensures
        0 <= name_m(b).1 <= b.len(),
{
    lemma_find_byte_range(b, 0, 0);
}

/// A name by its bytes.
pub open spec fn name_result(r: Result<String, MeshError>) -> Result<Seq<u8>, MeshError> {
    match r {
        Ok(s) => Ok(encode_utf8(s@)),
        Err(e) => Err(e),
    }
}

/// Reads a null-terminated UTF-8 name (see [`name_m`]).
pub fn read_str_nul(i: &mut &[u8]) -> (r: Result<String, MeshError>)
    ensures
        name_result(r) == name_m(old(i)@).0,
        final(i)@ == old(i)@.skip(name_m(old(i)@).1),
{
    let ghost b = i@;
    let mut z: usize = 0;
    while z < i.len() && i[z] != 0
        invariant
            i@ == b,
            z <= b.len(),
            find_byte(b, 0, 0) == find_byte(b, z as int, 0),
        decreases b.len() - z,
    {
        z += 1;
    }
    if z == i.len() {
        assert(i@ =~= b.skip(0));
        return Err(MeshError::Bytes(UnexpectedEnd));
    }
    assert(find_byte(b, 0, 0) == Some(z as int));
    let bytes = match take_bytes(i, z) {
        Ok(x) => x,
        Err(e) => {
            return Err(MeshError::Bytes(e));
        },
    };
    let _ = take_u8(i);
    assert(i@ =~= b.skip(z + 1));
    match str_from_utf8(bytes) {
        Some(s) => Ok(s.to_owned()),
        None => Err(MeshError::Utf8),
    }
}

// ── materials ─────────────────────────────────────────────────────────────────

/// A mesh material.
#[derive(Debug, Clone, PartialEq)]
pub struct Material {
    pub id: u32,
    pub name: String,
    pub decal_id: u32,
    pub base_texture_id: u32,
    pub bumpmap_texture_id: u32,
    pub reflect_texture_id: u32,
    pub illumination_texture_id: u32,
    pub map_flags: u32,
    pub self_illumination: u32,
    pub two_sided: bool,
    pub transparent: bool,
    pub boolean_alpha: bool,
    pub degenerate_triangles: u16,
}

/// Where the 33 bytes of fixed fields after a material's name stop on `n`
/// bytes: each field that fits is taken (seven `u32`, three flag bytes, a
/// `u16`).
pub open spec fn material_tail_stop(n: int) -> int {
    if n < 4 {
        0
    } else if n < 8 {
        4
    } else if n < 12 {
        8
    } else if n < 16 {
        12
    } else if n < 20 {
        16
    } else if n < 24 {
        20
    } else if n < 28 {
        24
    } else if n < 29 {
        28
    } else if n < 30 {
        29
    } else if n < 31 {
        30
    } else if n < 33 {
        31
    } else {
        33
    }
}

/// Where a material's fixed fields start in `b`: after its `u32` id and
/// its name.
pub open spec fn material_tail_start(b: Seq<u8>) -> int {
    4 + name_m(b.skip(4)).1
}

/// The outcome of [`Material::parse`] on `b`: the bytes taken, or the error
/// and where the cursor stops.
pub open spec fn material_outcome(b: Seq<u8>) -> Result<int, (MeshError, int)> {
    if b.len() < 4 {
        Err((MeshError::Take(UnexpectedEnd), 0))
    } else {
        match name_m(b.skip(4)).0 {
            Err(e) => Err((e, material_tail_start(b))),
            Ok(_) => {
                let q = material_tail_start(b);
                let st = material_tail_stop(b.len() - q);
                if st < 33 {
                    Err((MeshError::Take(UnexpectedEnd), q + st))
                } else {
                    Ok(q + 33)
                }
            },
        }
    }
}

/// Whether `m` holds the material at the front of `b`.
pub open spec fn material_from(m: Material, b: Seq<u8>) -> bool {
    let q = material_tail_start(b);
    &&& m.id == u32_le(b)
    &&& name_m(b.skip(4)).0 == Ok::<Seq<u8>, MeshError>(encode_utf8(m.name@))
    &&& m.decal_id == u32_le(b.skip(q))
    &&& m.base_texture_id == u32_le(b.skip(q + 4))
    &&& m.bumpmap_texture_id == u32_le(b.skip(q + 8))
    &&& m.reflect_texture_id == u32_le(b.skip(q + 12))
    &&& m.illumination_texture_id == u32_le(b.skip(q + 16))
    &&& m.map_flags == u32_le(b.skip(q + 20))
    &&& m.self_illumination == u32_le(b.skip(q + 24))
    &&& m.two_sided == (b[q + 28] != 0)
    &&& m.transparent == (b[q + 29] != 0)
    &&& m.boolean_alpha == (b[q + 30] != 0)
    &&& m.degenerate_triangles == u16_le(b.skip(q + 31))
}

impl Material {
    /// Reads a material (see [`material_outcome`] and [`material_from`]).
    pub fn parse(i: &mut &[u8]) -> (r: Result<Material, MeshError>)
        ensures
            match material_outcome(old(i)@) {
                Ok(q) => r matches Ok(m) && material_from(m, old(i)@) && final(i)@ == old(i)@.skip(q),
                Err((e, q)) => r == Err::<Material, MeshError>(e) && final(i)@ == old(i)@.skip(q),
            },
    {
        let ghost b = i@;
        let t = MeshError::Take(UnexpectedEnd);
        let id = match take_u32(i) {
            Ok(v) => v,
            Err(_) => {
                assert(i@ =~= b.skip(0));
                return Err(t);
            },
        };
        proof {
            lemma_name_len(b.skip(4));
        }
        let name = match read_str_nul(i) {
            Ok(v) => v,
            Err(e) => {
                assert(b.skip(4).skip(name_m(b.skip(4)).1) =~= b.skip(material_tail_start(b)));
                return Err(e);
            },
        };
        let ghost q = material_tail_start(b);
        assert(i@ =~= b.skip(q));
        let decal_id = match take_u32(i) { Ok(v) => v, Err(_) => return Err(t) };
        assert(i@ =~= b.skip(q + 4));
        let base_texture_id = match take_u32(i) { Ok(v) => v, Err(_) => return Err(t) };
        assert(i@ =~= b.skip(q + 8));
        let bumpmap_texture_id = match take_u32(i) { Ok(v) => v, Err(_) => return Err(t) };
        assert(i@ =~= b.skip(q + 12));
        let reflect_texture_id = match take_u32(i) { Ok(v) => v, Err(_) => return Err(t) };
        assert(i@ =~= b.skip(q + 16));
        let illumination_texture_id = match take_u32(i) { Ok(v) => v, Err(_) => return Err(t) };
        assert(i@ =~= b.skip(q + 20));
        let map_flags = match take_u32(i) { Ok(v) => v, Err(_) => return Err(t) };
        assert(i@ =~= b.skip(q + 24));
        let self_illumination = match take_u32(i) { Ok(v) => v, Err(_) => return Err(t) };
        assert(i@ =~= b.skip(q + 28));
        let two_sided = match take_u8(i) { Ok(v) => v, Err(_) => return Err(t) };
        assert(i@ =~= b.skip(q + 29));
        let transparent = match take_u8(i) { Ok(v) => v, Err(_) => return Err(t) };
        assert(i@ =~= b.skip(q + 30));
        let boolean_alpha = match take_u8(i) { Ok(v) => v, Err(_) => return Err(t) };
        assert(i@ =~= b.skip(q + 31));
        let degenerate_triangles = match take_u16(i) { Ok(v) => v, Err(_) => return Err(t) };
        assert(i@ =~= b.skip(q + 33));
        Ok(Material {
            id,
            name,
            decal_id,
            base_texture_id,
            bumpmap_texture_id,
            reflect_texture_id,
            illumination_texture_id,
            map_flags,
            self_illumination,
            two_sided: two_sided != 0,
            transparent: transparent != 0,
            boolean_alpha: boolean_alpha != 0,
            degenerate_triangles,
        })
    }
}

// ── primitive blocks ──────────────────────────────────────────────────────────

/// A run of triangles of a primitive, as a list or a strip.
#[derive(Debug, Clone, Copy, PartialEq)]
pub struct PrimitiveBlock {
    pub primitive_count: u32,
    pub start_index: u32,
    pub is_strip: bool,
    pub change_flags: u8,
    pub degenerate_triangles: bool,
}

#[derive(Debug, Clone, Copy, PartialEq)]
pub struct PrimitiveStaticBlock {
    pub base: PrimitiveBlock,
    pub material_index: u32,
}

#[derive(Debug, Clone, PartialEq)]
pub struct PrimitiveAnimatedBlock {
    pub base: PrimitiveBlock,
    pub vertex_count: u32,
    pub bones_per_vertex: u16,
    pub paletted_flag: bool,
    pub groups: Vec<u8>,
}

/// Where the 11 bytes of a primitive block stop on `n` bytes: each field
/// that fits is taken (two `u32`, three bytes).
pub open spec fn block_stop(n: int) -> int {
    if n < 4 {
        0
    } else if n < 8 {
        4
    } else if n < 9 {
        8
    } else if n < 10 {
        9
    } else if n < 11 {
        10
    } else {
        11
    }
}

/// Whether `k` is the primitive block at the front of `b`.
pub open spec fn block_from(k: PrimitiveBlock, b: Seq<u8>) -> bool {
    &&& k.primitive_count == u32_le(b)
    &&& k.start_index == u32_le(b.skip(4))
    &&& k.is_strip == (b[8] != 0)
    &&& k.change_flags == b[9]
    &&& k.degenerate_triangles == (b[10] != 0)
}

impl PrimitiveBlock {
    /// Reads a primitive block: 11 bytes, or a failure where the cursor stops
    /// at the first field that does not fit (see [`block_stop`]).
    pub fn parse(i: &mut &[u8]) -> (r: Result<PrimitiveBlock, MeshError>)
        ensures
            old(i)@.len() >= 11 ==> (r matches Ok(k) && block_from(k, old(i)@) && final(i)@ == old(i)@.skip(11)),
            old(i)@.len() < 11 ==> r == Err::<PrimitiveBlock, MeshError>(MeshError::Take(UnexpectedEnd))
                && final(i)@ == old(i)@.skip(block_stop(old(i)@.len() as int)),
    {
        let ghost b = i@;
        let t = MeshError::Take(UnexpectedEnd);
        let primitive_count = match take_u32(i) {
            Ok(v) => v,
            Err(_) => {
                assert(i@ =~= b.skip(0));
                return Err(t);
            },
        };
        let start_index = match take_u32(i) { Ok(v) => v, Err(_) => return Err(t) };
        assert(i@ =~= b.skip(8));
        let is_strip = match take_u8(i) { Ok(v) => v, Err(_) => return Err(t) };
        assert(i@ =~= b.skip(9));
        let change_flags = match take_u8(i) { Ok(v) => v, Err(_) => return Err(t) };
        assert(i@ =~= b.skip(10));
        let degenerate_triangles = match take_u8(i) { Ok(v) => v, Err(_) => return Err(t) };
        assert(i@ =~= b.skip(11));
        Ok(PrimitiveBlock {
            primitive_count,
            start_index,
            is_strip: is_strip != 0,
            change_flags,
            degenerate_triangles: degenerate_triangles != 0,
        })
    }
}

impl PrimitiveStaticBlock {
    /// Reads a static block: a primitive block and a `u32` material index.
    pub fn parse(i: &mut &[u8]) -> (r: Result<PrimitiveStaticBlock, MeshError>)
        ensures
            old(i)@.len() >= 15 ==> (r matches Ok(k) && block_from(k.base, old(i)@) && k.material_index
                == u32_le(old(i)@.skip(11)) && final(i)@ == old(i)@.skip(15)),
            old(i)@.len() < 15 ==> r == Err::<PrimitiveStaticBlock, MeshError>(MeshError::Take(UnexpectedEnd))
                && final(i)@ == old(i)@.skip(if old(i)@.len() < 11 {
                block_stop(old(i)@.len() as int)
            } else {
                11
            }),
    {
        let ghost b = i@;
        let base = match PrimitiveBlock::parse(i) {
            Ok(k) => k,
            Err(e) => {
                return Err(e);
            },
        };
        let material_index = match take_u32(i) {
            Ok(v) => v,
            Err(_) => {
                return Err(MeshError::Take(UnexpectedEnd));
            },
        };
        assert(b.skip(11).skip(4) =~= b.skip(15));
        Ok(PrimitiveStaticBlock { base, material_index })
    }
}

/// The outcome of [`PrimitiveAnimatedBlock::parse`] on `b`: the bytes taken,
/// or the error and where the cursor stops.
pub open spec fn animated_block_outcome(b: Seq<u8>) -> Result<int, (MeshError, int)> {
    let n = b.len() as int;
    let t = MeshError::Take(UnexpectedEnd);
    if n < 11 {
        Err((t, block_stop(n)))
    } else if n < 15 {
        Err((t, 11))
    } else if n < 17 {
        Err((t, 15))
    } else if n < 18 {
        Err((t, 17))
    } else if n < 19 {
        Err((t, 18))
    } else if n - 19 < b[18] {
        Err((MeshError::Bytes(UnexpectedEnd), 19))
    } else {
        Ok(19 + b[18])
    }
}

impl PrimitiveAnimatedBlock {
    /// Reads an animated block: a primitive block, a `u32` vertex count, a
    /// `u16` bones per vertex, a flag byte, and a byte-counted run of group
    /// bytes.
    pub fn parse(i: &mut &[u8]) -> (r: Result<PrimitiveAnimatedBlock, MeshError>)
        ensures
            match animated_block_outcome(old(i)@) {
                Ok(q) => r matches Ok(k) && block_from(k.base, old(i)@) && k.vertex_count == u32_le(
                    old(i)@.skip(11),
                ) && k.bones_per_vertex == u16_le(old(i)@.skip(15)) && k.paletted_flag == (old(i)@[17]
                    != 0) && k.groups@ == old(i)@.subrange(19, q) && final(i)@ == old(i)@.skip(q),
                Err((e, q)) => r matches Err(x) && x == e && final(i)@ == old(i)@.skip(q),
            },
    {
        let ghost b = i@;
        let t = MeshError::Take(UnexpectedEnd);
        let base = match PrimitiveBlock::parse(i) {
            Ok(k) => k,
            Err(e) => {
                return Err(e);
            },
        };
        let vertex_count = match take_u32(i) { Ok(v) => v, Err(_) => return Err(t) };
        assert(i@ =~= b.skip(15));
        let bones_per_vertex = match take_u16(i) { Ok(v) => v, Err(_) => return Err(t) };
        assert(i@ =~= b.skip(17));
        let paletted_flag = match take_u8(i) { Ok(v) => v, Err(_) => return Err(t) };
        assert(i@ =~= b.skip(18));
        let groups_len = match take_u8(i) { Ok(v) => v, Err(_) => return Err(t) };
        assert(i@ =~= b.skip(19));
        let groups = match take_bytes(i, groups_len as usize) {
            Ok(g) => g,
            Err(e) => {
                return Err(MeshError::Bytes(e));
            },
        };
        assert(groups@ =~= b.subrange(19, 19 + groups_len));
        assert(i@ =~= b.skip(19 + groups_len));
        let mut owned: Vec<u8> = Vec::new();
        append_bytes(&mut owned, groups);
        assert(owned@ =~= groups@);
        Ok(PrimitiveAnimatedBlock {
            base,
            vertex_count,
            bones_per_vertex,
            paletted_flag: paletted_flag != 0,
            groups: owned,
        })
    }
}

// ── index lists ───────────────────────────────────────────────────────────────

/// The first `k` triangles of a strip in `v`: whether all were read, the
/// indices they gave, and the bytes taken. Each triangle takes one index
/// and peeks at the next two.
pub open spec fn strip_m(v: Seq<u8>, k: nat) -> (bool, Seq<u16>, int)
    decreases k,
{
    if k == 0 {
        (true, Seq::empty(), 0)
    } else {
        let (ok, s, c) = strip_m(v, (k - 1) as nat);
        if !ok {
            (ok, s, c)
        } else if v.len() < c + 2 {
            (false, s, c)
        } else if v.len() < c + 6 {
            (false, s, c + 2)
        } else {
            (true, s + seq![u16_le(v.skip(c)), u16_le(v.skip(c + 2)), u16_le(v.skip(c + 4))], c + 2)
        }
    }
}

/// The first `k` triangles of a list in `v`: whether all were read, the
/// indices they gave, and the bytes taken. Each triangle takes three
/// indices.
pub open spec fn list_m(v: Seq<u8>, k: nat) -> (bool, Seq<u16>, int)
    decreases k,
{
    if k == 0 {
        (true, Seq::empty(), 0)
    } else {
        let (ok, s, c) = list_m(v, (k - 1) as nat);
        if !ok {
            (ok, s, c)
        } else if v.len() < c + 2 {
            (false, s, c)
        } else if v.len() < c + 4 {
            (false, s, c + 2)
        } else if v.len() < c + 6 {
            (false, s, c + 4)
        } else {
            (true, s + seq![u16_le(v.skip(c)), u16_le(v.skip(c + 2)), u16_le(v.skip(c + 4))], c + 6)
        }
    }
}

proof fn lemma_strip_stays(v: Seq<u8>, j: nat, n: nat)
    requires
        j <= n,
        !strip_m(v, j).0,
    ensures
        strip_m(v, n) == strip_m(v, j),
    decreases n - j,
{
    if j < n {
        lemma_strip_stays(v, j, (n - 1) as nat);
    }
}

proof fn lemma_list_stays(v: Seq<u8>, j: nat, n: nat)
    requires
        j <= n,
        !list_m(v, j).0,
    ensures
        list_m(v, n) == list_m(v, j),
    decreases n - j,
{
    if j < n {
        lemma_list_stays(v, j, (n - 1) as nat);
    }
}

/// The triangles of `block` in the index buffer `v`.
pub open spec fn expand_m(v: Seq<u8>, block: PrimitiveBlock) -> (bool, Seq<u16>, int) {
    if block.is_strip {
        strip_m(v, block.primitive_count as nat)
    } else {
        list_m(v, block.primitive_count as nat)
    }
}

/// Reads the triangles of `block` from an index buffer into `indices`
/// (see [`strip_m`] and [`list_m`]); the indices of the triangles read
/// before a failure stay appended.
pub fn expand_block(view: &mut &[u8], block: &PrimitiveBlock, indices: &mut Vec<u16>) -> (r: Result<(), MeshError>)
    ensures
        final(indices)@ == old(indices)@ + expand_m(old(view)@, *block).1,
        final(view)@ == old(view)@.skip(expand_m(old(view)@, *block).2),
        expand_m(old(view)@, *block).0 ==> r is Ok,
        !expand_m(old(view)@, *block).0 ==> r == Err::<(), MeshError>(MeshError::Take(UnexpectedEnd)),
{
    let ghost v = view@;
    let ghost base = indices@;
    let t = MeshError::Take(UnexpectedEnd);
    let mut k: u32 = 0;
    while k < block.primitive_count
        invariant
            v == old(view)@,
            base == old(indices)@,
            t == MeshError::Take(UnexpectedEnd),
            k <= block.primitive_count,
            ({
                let (ok, s, c) = if block.is_strip {
                    strip_m(v, k as nat)
                } else {
                    list_m(v, k as nat)
                };
                &&& ok
                &&& indices@ == base + s
                &&& 0 <= c <= v.len()
                &&& view@ == v.skip(c)
            }),
        decreases block.primitive_count - k,
    {
        let ghost (ok0, s0, c0) = if block.is_strip {
            strip_m(v, k as nat)
        } else {
            list_m(v, k as nat)
        };
        if block.is_strip {
            let v1 = match take_u16(view) {
                Ok(x) => x,
                Err(_) => {
                    proof {
                        lemma_strip_stays(v, (k + 1) as nat, block.primitive_count as nat);
                    }
                    return Err(t);
                },
            };
            assert(view@ =~= v.skip(c0 + 2));
            let mut peek: &[u8] = *view;
            let v2 = match take_u16(&mut peek) {
                Ok(x) => x,
                Err(_) => {
                    proof {
                        lemma_strip_stays(v, (k + 1) as nat, block.primitive_count as nat);
                    }
                    return Err(t);
                },
            };
            let v3 = match take_u16(&mut peek) {
                Ok(x) => x,
                Err(_) => {
                    proof {
                        lemma_strip_stays(v, (k + 1) as nat, block.primitive_count as nat);
                    }
                    return Err(t);
                },
            };
            assert(v.skip(c0 + 2).skip(2) =~= v.skip(c0 + 4));
            indices.push(v1);
            indices.push(v2);
            indices.push(v3);
        } else {
            let v1 = match take_u16(view) {
                Ok(x) => x,
                Err(_) => {
                    proof {
                        lemma_list_stays(v, (k + 1) as nat, block.primitive_count as nat);
                    }
                    return Err(t);
                },
            };
            assert(view@ =~= v.skip(c0 + 2));
            let v2 = match take_u16(view) {
                Ok(x) => x,
                Err(_) => {
                    proof {
                        lemma_list_stays(v, (k + 1) as nat, block.primitive_count as nat);
                    }
                    return Err(t);
                },
            };
            assert(view@ =~= v.skip(c0 + 4));
            let v3 = match take_u16(view) {
                Ok(x) => x,
                Err(_) => {
                    proof {
                        lemma_list_stays(v, (k + 1) as nat, block.primitive_count as nat);
                    }
                    return Err(t);
                },
            };
            assert(view@ =~= v.skip(c0 + 6));
            indices.push(v1);
            indices.push(v2);
            indices.push(v3);
        }
        k += 1;
        proof {
            let (_, s1, _) = if block.is_strip {
                strip_m(v, k as nat)
            } else {
                list_m(v, k as nat)
            };
            assert(indices@ =~= base + s1);
        }
    }
    Ok(())
}


// ── helper and bone names ─────────────────────────────────────────────────────

/// The helper names in a decompressed names section `n` of `size` bytes: a
/// `u16` giving where the dummy names start (counted from the section's
/// front), the point names up to there, then the dummy names up to `size`.
pub open spec fn helper_names_split(n: Seq<u8>, size: u32) -> Result<(Seq<u8>, Seq<u8>), MeshError> {
    if n.len() < 2 {
        Err(MeshError::Take(UnexpectedEnd))
    } else {
        let p = u16_le(n) as int;
        let a: int = if p < 2 { 0 } else { p - 2 };
        let c: int = if size < p { 0 } else { size - p };
        if n.len() - 2 < a {
            Err(MeshError::Bytes(UnexpectedEnd))
        } else if n.len() - 2 - a < c {
            Err(MeshError::Bytes(UnexpectedEnd))
        } else {
            Ok((n.subrange(2, 2 + a), n.subrange(2 + a, 2 + a + c)))
        }
    }
}

/// The helper point and dummy names at the front of `b`, in a names section
/// of `size` bytes (none when `size` is zero); with the bytes taken.
pub open spec fn helper_names_m(b: Seq<u8>, size: u32) -> (Result<(Seq<u8>, Seq<u8>), MeshError>, int) {
    if size == 0 {
        (Ok((Seq::empty(), Seq::empty())), 0)
    } else {
        match section_m(b, size as usize).0 {
            Err(e) => (Err(e), section_m(b, size as usize).1),
            Ok(n) => (helper_names_split(n, size), section_m(b, size as usize).1),
        }
    }
}

/// Two byte runs by their bytes.
pub open spec fn runs_result(r: Result<(Vec<u8>, Vec<u8>), MeshError>) -> Result<(Seq<u8>, Seq<u8>), MeshError> {
    match r {
        Ok((a, c)) => Ok((a@, c@)),
        Err(e) => Err(e),
    }
}

/// Reads the helper point and dummy names (see [`helper_names_m`]).
pub fn decode_helper_names(i: &mut &[u8], size: u32) -> (r: Result<(Vec<u8>, Vec<u8>), MeshError>)
    ensures
        runs_result(r) == helper_names_m(old(i)@, size).0,
        final(i)@ == old(i)@.skip(helper_names_m(old(i)@, size).1),
{
    let ghost b = i@;
    if size == 0 {
        assert(i@ =~= b.skip(0));
        return Ok((Vec::new(), Vec::new()));
    }
    let names = match decompress_section(i, size as usize) {
        Ok(n) => n,
        Err(e) => {
            return Err(e);
        },
    };
    let mut d: &[u8] = names.as_slice();
    let point_index_size = match take_u16(&mut d) {
        Ok(v) => v,
        Err(e) => {
            return Err(MeshError::Take(e));
        },
    };
    let point_len = point_index_size.saturating_sub(2) as usize;
    let dummy_len = size.saturating_sub(point_index_size as u32) as usize;
    let point_names = match take_bytes(&mut d, point_len) {
        Ok(x) => x,
        Err(e) => {
            return Err(MeshError::Bytes(e));
        },
    };
    assert(point_names@ =~= names@.subrange(2, 2 + point_len));
    let dummy_names = match take_bytes(&mut d, dummy_len) {
        Ok(x) => x,
        Err(e) => {
            return Err(MeshError::Bytes(e));
        },
    };
    assert(dummy_names@ =~= names@.subrange(2 + point_len, 2 + point_len + dummy_len));
    let mut points: Vec<u8> = Vec::new();
    append_bytes(&mut points, point_names);
    let mut dummies: Vec<u8> = Vec::new();
    append_bytes(&mut dummies, dummy_names);
    assert(points@ =~= point_names@);
    assert(dummies@ =~= dummy_names@);
    Ok((points, dummies))
}

/// The little-endian `u16`s at the front of `b`, `n` of them.
pub open spec fn u16s_le(b: Seq<u8>, n: nat) -> Seq<u16> {
    Seq::new(n, |k: int| u16_le(b.skip(2 * k)))
}

/// The bone names at the front of `b` for `bone_count` bones and a names
/// section of `names_len` bytes: none when either is zero; otherwise a
/// section of one `u16` name index per bone but the first, then the names
/// section. With the bytes taken.
pub open spec fn bone_names_m(b: Seq<u8>, bone_count: u32, names_len: u32) -> (
    Result<(Seq<u16>, Seq<u8>), MeshError>,
    int,
) {
    if bone_count == 0 || names_len == 0 {
        (Ok((Seq::empty(), Seq::empty())), 0)
    } else {
        let k = (bone_count - 1) as nat;
        let (s, q) = section_m(b, (2 * k) as usize);
        match s {
            Err(e) => (Err(e), q),
            Ok(data) => if data.len() < 2 * k {
                (Err(MeshError::Take(UnexpectedEnd)), q)
            } else {
                let (t, q2) = section_m(b.skip(q), names_len as usize);
                match t {
                    Err(e) => (Err(e), q + q2),
                    Ok(names) => (Ok((u16s_le(data, k), names)), q + q2),
                }
            },
        }
    }
}

/// Name indices and names by their values.
pub open spec fn bone_names_result(r: Result<(Vec<u16>, Vec<u8>), MeshError>) -> Result<(Seq<u16>, Seq<u8>), MeshError> {
    match r {
        Ok((a, c)) => Ok((a@, c@)),
        Err(e) => Err(e),
    }
}

pub(crate) proof fn lemma_section_len(b: Seq<u8>, size: usize)
    ensures
        0 <= section_m(b, size).1 <= b.len(),
{
}

/// Reads the bone name indices and the bone names (see [`bone_names_m`]).
pub fn decode_bone_names(i: &mut &[u8], bone_count: u32, names_len: u32) -> (r: Result<(Vec<u16>, Vec<u8>), MeshError>)
    requires
        bone_count == 0 || 2 * (bone_count - 1) <= usize::MAX,
    ensures
        bone_names_result(r) == bone_names_m(old(i)@, bone_count, names_len).0,
        final(i)@ == old(i)@.skip(bone_names_m(old(i)@, bone_count, names_len).1),
{
    let ghost b = i@;
    if bone_count == 0 || names_len == 0 {
        assert(i@ =~= b.skip(0));
        return Ok((Vec::new(), Vec::new()));
    }
    let count = (bone_count - 1) as usize;
    let indices_data = match decompress_section(i, 2 * count) {
        Ok(d) => d,
        Err(e) => {
            return Err(e);
        },
    };
    let ghost q = section_m(b, (2 * count) as usize).1;
    proof {
        lemma_section_len(b, (2 * count) as usize);
    }
    let mut d: &[u8] = indices_data.as_slice();
    let mut indices: Vec<u16> = Vec::new();
    let mut k: usize = 0;
    while k < count
        invariant
            k <= count,
            2 * count <= usize::MAX,
            count == bone_count - 1,
            bone_count != 0,
            names_len != 0,
            i@ == b.skip(q),
            q == section_m(b, (2 * count) as usize).1,
            section_m(b, (2 * count) as usize).0 == Ok::<Seq<u8>, MeshError>(indices_data@),
            indices_data@.len() >= 2 * count ==> d@ == indices_data@.skip(2 * k),
            indices_data@.len() >= 2 * count ==> indices@ == u16s_le(indices_data@, k as nat),
            indices_data@.len() < 2 * count ==> d@.len() < 2 * (count - k),
        decreases count - k,
    {
        let x = match take_u16(&mut d) {
            Ok(x) => x,
            Err(e) => {
                return Err(MeshError::Take(e));
            },
        };
        indices.push(x);
        k += 1;
        proof {
            if indices_data@.len() >= 2 * count {
                assert(d@ =~= indices_data@.skip(2 * k));
                assert(indices@ =~= u16s_le(indices_data@, k as nat));
            }
        }
    }
    let names = match decompress_section(i, names_len as usize) {
        Ok(n) => n,
        Err(e) => {
            return Err(e);
        },
    };
    Ok((indices, names))
}

} // verus!
