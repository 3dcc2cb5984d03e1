//! The cloth of a mesh primitive: its particle constraints, particles and
//! index lists, read from a semi-compressed section. Real numbers are kept
//! as the bits of their `f32` (`f32::from_bits` reads them back).

use vstd::prelude::*;
use vstd::string::StringSliceAdditionalSpecFns;
use vstd::utf8::{encode_utf8, valid_utf8};

use crate::bytes::{str_eq, str_from_utf8, take_bytes, take_u32, take_u8, u16_le, u32_le, UnexpectedEnd};
use crate::mesh::{decompress_section, section_m, MeshError};
use crate::texture::bytes_result;

verus! {

// ── reading at an offset ──────────────────────────────────────────────────────

/// The little-endian `u16` at `off` of `b`.
fn u16_at(b: &[u8], off: usize) -> (r: u16)
    requires
        off + 2 <= b@.len(),
    ensures
        r == u16_le(b@.skip(off as int)),
{
    (b[off] as u16) | ((b[off + 1] as u16) << 8u16)
}

/// The little-endian `u32` at `off` of `b`.
pub(crate) fn u32_at(b: &[u8], off: usize) -> (r: u32)
    requires
        off + 4 <= b@.len(),
    ensures
        r == u32_le(b@.skip(off as int)),
{
    (b[off] as u32) | ((b[off + 1] as u32) << 8u32) | ((b[off + 2] as u32) << 16u32) | ((b[off + 3] as u32)
        << 24u32)
}

/// The `n` little-endian `u16`s from `p` on in `b`.
pub open spec fn u16s_at(b: Seq<u8>, p: int, n: int) -> Seq<u16> {
    Seq::new(n as nat, |k: int| u16_le(b.skip(p + 2 * k)))
}

/// The `n` little-endian `u32`s from `p` on in `b`.
pub open spec fn u32s_at(b: Seq<u8>, p: int, n: int) -> Seq<u32> {
    Seq::new(n as nat, |k: int| u32_le(b.skip(p + 4 * k)))
}

/// Whether `v` holds `count` records of `w` little-endian `u16`s each, from
/// `p` on in `b`.
pub open spec fn u16_records(v: Seq<Seq<u16>>, b: Seq<u8>, p: int, count: int, w: int) -> bool {
    &&& v.len() == count
    &&& forall|j: int| 0 <= j < count ==> #[trigger] v[j] == u16s_at(b, p + 2 * w * j, w)
}

/// Whether `v` holds `count` records of `w` little-endian `u32`s each, from
/// `p` on in `b`.
pub open spec fn u32_records(v: Seq<Seq<u32>>, b: Seq<u8>, p: int, count: int, w: int) -> bool {
    &&& v.len() == count
    &&& forall|j: int| 0 <= j < count ==> #[trigger] v[j] == u32s_at(b, p + 4 * w * j, w)
}

/// The view of each array of `v`.
pub open spec fn rows16<const N: usize>(v: Seq<[u16; N]>) -> Seq<Seq<u16>> {
    v.map_values(|a: [u16; N]| a@)
}

/// The view of each array of `v`.
pub open spec fn rows32<const N: usize>(v: Seq<[u32; N]>) -> Seq<Seq<u32>> {
    v.map_values(|a: [u32; N]| a@)
}

/// A `u32` count of records of `size` bytes, then the records: where they
/// end, or running out.
pub open spec fn counted(b: Seq<u8>, p: int, size: int) -> Result<int, MeshError> {
    if b.len() - p < 4 {
        Err(MeshError::Take(UnexpectedEnd))
    } else if b.len() - (p + 4) < size * u32_le(b.skip(p)) {
        Err(MeshError::Take(UnexpectedEnd))
    } else {
        Ok(p + 4 + size * u32_le(b.skip(p)))
    }
}

/// Where a counted run of `size`-byte records at `p` ends.
pub open spec fn counted_end(b: Seq<u8>, p: int, size: int) -> int {
    p + 4 + size * u32_le(b.skip(p))
}


/// Reads `count` records of 3 little-endian `u16`s; fails when the
/// input runs out.
fn read_u16x3s(cur: &mut &[u8], count: u32) -> (r: Result<Vec<[u16; 3]>, MeshError>)
    ensures
        old(cur)@.len() >= 6 * count ==> (r matches Ok(v) && u16_records(rows16(v@), old(cur)@, 0, count as int, 3)
            && final(cur)@ == old(cur)@.skip(6 * count)),
        old(cur)@.len() < 6 * count ==> r == Err::<Vec<[u16; 3]>, MeshError>(MeshError::Take(UnexpectedEnd)),
{
    if count as usize > cur.len() / 6 {
        return Err(MeshError::Take(UnexpectedEnd));
    }
    let c: &[u8] = *cur;
    let total = c.len();
    let mut v: Vec<[u16; 3]> = Vec::new();
    let mut k: usize = 0;
    while k < count as usize
        invariant
            c@ == old(cur)@,
            total == c@.len(),
            count as usize <= c@.len() / 6,
            k <= count,
            u16_records(rows16(v@), c@, 0, k as int, 3),
        decreases count - k,
    {
        proof {
            assert(6 * k + 6 <= c@.len()) by (nonlinear_arith)
                requires
                    k < count,
                    count as usize <= c@.len() / 6,
            ;
        }
        let base = 6 * k;
        let a = [u16_at(c, base + 0), u16_at(c, base + 2), u16_at(c, base + 4)];
        proof {
            assert(a@ =~= u16s_at(c@, 6 * k, 3));
        }
        let ghost before = v@;
        v.push(a);
        k += 1;
        proof {
            assert(rows16(v@) =~= rows16(before).push(a@));
        }
    }
    proof {
        assert(6 * count <= c@.len()) by (nonlinear_arith)
            requires
                count as usize <= c@.len() / 6,
        ;
    }
    let (_, rest) = c.split_at(6 * count as usize);
    *cur = rest;
    Ok(v)
}

/// Reads `count` records of 4 little-endian `u16`s; fails when the
/// input runs out.
fn read_u16x4s(cur: &mut &[u8], count: u32) -> (r: Result<Vec<[u16; 4]>, MeshError>)
    ensures
        old(cur)@.len() >= 8 * count ==> (r matches Ok(v) && u16_records(rows16(v@), old(cur)@, 0, count as int, 4)
            && final(cur)@ == old(cur)@.skip(8 * count)),
        old(cur)@.len() < 8 * count ==> r == Err::<Vec<[u16; 4]>, MeshError>(MeshError::Take(UnexpectedEnd)),
{
    if count as usize > cur.len() / 8 {
        return Err(MeshError::Take(UnexpectedEnd));
    }
    let c: &[u8] = *cur;
    let total = c.len();
    let mut v: Vec<[u16; 4]> = Vec::new();
    let mut k: usize = 0;
    while k < count as usize
        invariant
            c@ == old(cur)@,
            total == c@.len(),
            count as usize <= c@.len() / 8,
            k <= count,
            u16_records(rows16(v@), c@, 0, k as int, 4),
        decreases count - k,
    {
        proof {
            assert(8 * k + 8 <= c@.len()) by (nonlinear_arith)
                requires
                    k < count,
                    count as usize <= c@.len() / 8,
            ;
        }
        let base = 8 * k;
        let a = [u16_at(c, base + 0), u16_at(c, base + 2), u16_at(c, base + 4), u16_at(c, base + 6)];
        proof {
            assert(a@ =~= u16s_at(c@, 8 * k, 4));
        }
        let ghost before = v@;
        v.push(a);
        k += 1;
        proof {
            assert(rows16(v@) =~= rows16(before).push(a@));
        }
    }
    proof {
        assert(8 * count <= c@.len()) by (nonlinear_arith)
            requires
                count as usize <= c@.len() / 8,
        ;
    }
    let (_, rest) = c.split_at(8 * count as usize);
    *cur = rest;
    Ok(v)
}

/// Reads `count` records of 2 little-endian `u16`s; fails when the
/// input runs out.
fn read_u16x2s(cur: &mut &[u8], count: u32) -> (r: Result<Vec<[u16; 2]>, MeshError>)
    ensures
        old(cur)@.len() >= 4 * count ==> (r matches Ok(v) && u16_records(rows16(v@), old(cur)@, 0, count as int, 2)
            && final(cur)@ == old(cur)@.skip(4 * count)),
        old(cur)@.len() < 4 * count ==> r == Err::<Vec<[u16; 2]>, MeshError>(MeshError::Take(UnexpectedEnd)),
{
    if count as usize > cur.len() / 4 {
        return Err(MeshError::Take(UnexpectedEnd));
    }
    let c: &[u8] = *cur;
    let total = c.len();
    let mut v: Vec<[u16; 2]> = Vec::new();
    let mut k: usize = 0;
    while k < count as usize
        invariant
            c@ == old(cur)@,
            total == c@.len(),
            count as usize <= c@.len() / 4,
            k <= count,
            u16_records(rows16(v@), c@, 0, k as int, 2),
        decreases count - k,
    {
        proof {
            assert(4 * k + 4 <= c@.len()) by (nonlinear_arith)
                requires
                    k < count,
                    count as usize <= c@.len() / 4,
            ;
        }
        let base = 4 * k;
        let a = [u16_at(c, base + 0), u16_at(c, base + 2)];
        proof {
            assert(a@ =~= u16s_at(c@, 4 * k, 2));
        }
        let ghost before = v@;
        v.push(a);
        k += 1;
        proof {
            assert(rows16(v@) =~= rows16(before).push(a@));
        }
    }
    proof {
        assert(4 * count <= c@.len()) by (nonlinear_arith)
            requires
                count as usize <= c@.len() / 4,
        ;
    }
    let (_, rest) = c.split_at(4 * count as usize);
    *cur = rest;
    Ok(v)
}

/// Reads `count` records of 3 little-endian `u32`s; fails when the
/// input runs out.
fn read_u32x3s(cur: &mut &[u8], count: u32) -> (r: Result<Vec<[u32; 3]>, MeshError>)
    ensures
        old(cur)@.len() >= 12 * count ==> (r matches Ok(v) && u32_records(rows32(v@), old(cur)@, 0, count as int, 3)
            && final(cur)@ == old(cur)@.skip(12 * count)),
        old(cur)@.len() < 12 * count ==> r == Err::<Vec<[u32; 3]>, MeshError>(MeshError::Take(UnexpectedEnd)),
{
    if count as usize > cur.len() / 12 {
        return Err(MeshError::Take(UnexpectedEnd));
    }
    let c: &[u8] = *cur;
    let total = c.len();
    let mut v: Vec<[u32; 3]> = Vec::new();
    let mut k: usize = 0;
    while k < count as usize
        invariant
            c@ == old(cur)@,
            total == c@.len(),
            count as usize <= c@.len() / 12,
            k <= count,
            u32_records(rows32(v@), c@, 0, k as int, 3),
        decreases count - k,
    {
        proof {
            assert(12 * k + 12 <= c@.len()) by (nonlinear_arith)
                requires
                    k < count,
                    count as usize <= c@.len() / 12,
            ;
        }
        let base = 12 * k;
        let a = [u32_at(c, base + 0), u32_at(c, base + 4), u32_at(c, base + 8)];
        proof {
            assert(a@ =~= u32s_at(c@, 12 * k, 3));
        }
        let ghost before = v@;
        v.push(a);
        k += 1;
        proof {
            assert(rows32(v@) =~= rows32(before).push(a@));
        }
    }
    proof {
        assert(12 * count <= c@.len()) by (nonlinear_arith)
            requires
                count as usize <= c@.len() / 12,
        ;
    }
    let (_, rest) = c.split_at(12 * count as usize);
    *cur = rest;
    Ok(v)
}

/// Reads `count` records of 2 little-endian `u32`s; fails when the
/// input runs out.
fn read_u32x2s(cur: &mut &[u8], count: u32) -> (r: Result<Vec<[u32; 2]>, MeshError>)
    ensures
        old(cur)@.len() >= 8 * count ==> (r matches Ok(v) && u32_records(rows32(v@), old(cur)@, 0, count as int, 2)
            && final(cur)@ == old(cur)@.skip(8 * count)),
        old(cur)@.len() < 8 * count ==> r == Err::<Vec<[u32; 2]>, MeshError>(MeshError::Take(UnexpectedEnd)),
{
    if count as usize > cur.len() / 8 {
        return Err(MeshError::Take(UnexpectedEnd));
    }
    let c: &[u8] = *cur;
    let total = c.len();
    let mut v: Vec<[u32; 2]> = Vec::new();
    let mut k: usize = 0;
    while k < count as usize
        invariant
            c@ == old(cur)@,
            total == c@.len(),
            count as usize <= c@.len() / 8,
            k <= count,
            u32_records(rows32(v@), c@, 0, k as int, 2),
        decreases count - k,
    {
        proof {
            assert(8 * k + 8 <= c@.len()) by (nonlinear_arith)
                requires
                    k < count,
                    count as usize <= c@.len() / 8,
            ;
        }
        let base = 8 * k;
        let a = [u32_at(c, base + 0), u32_at(c, base + 4)];
        proof {
            assert(a@ =~= u32s_at(c@, 8 * k, 2));
        }
        let ghost before = v@;
        v.push(a);
        k += 1;
        proof {
            assert(rows32(v@) =~= rows32(before).push(a@));
        }
    }
    proof {
        assert(8 * count <= c@.len()) by (nonlinear_arith)
            requires
                count as usize <= c@.len() / 8,
        ;
    }
    let (_, rest) = c.split_at(8 * count as usize);
    *cur = rest;
    Ok(v)
}

/// Reads `count` little-endian `u32`s; fails when the input runs out.
pub(crate) fn read_u32s(cur: &mut &[u8], count: u32) -> (r: Result<Vec<u32>, MeshError>)
    ensures
        old(cur)@.len() >= 4 * count ==> (r matches Ok(v) && v@ == u32s_at(old(cur)@, 0, count as int)
            && final(cur)@ == old(cur)@.skip(4 * count)),
        old(cur)@.len() < 4 * count ==> r == Err::<Vec<u32>, MeshError>(MeshError::Take(UnexpectedEnd)),
{
    if count as usize > cur.len() / 4 {
        return Err(MeshError::Take(UnexpectedEnd));
    }
    let c: &[u8] = *cur;
    let total = c.len();
    let mut v: Vec<u32> = Vec::new();
    let mut k: usize = 0;
    while k < count as usize
        invariant
            c@ == old(cur)@,
            total == c@.len(),
            count as usize <= c@.len() / 4,
            k <= count,
            v@ == u32s_at(c@, 0, k as int),
        decreases count - k,
    {
        proof {
            assert(4 * k + 4 <= c@.len()) by (nonlinear_arith)
                requires
                    k < count,
                    count as usize <= c@.len() / 4,
            ;
        }
        let x = u32_at(c, 4 * k);
        v.push(x);
        k += 1;
        proof {
            assert(v@ =~= u32s_at(c@, 0, k as int));
        }
    }
    proof {
        assert(4 * count <= c@.len()) by (nonlinear_arith)
            requires
                count as usize <= c@.len() / 4,
        ;
    }
    let (_, rest) = c.split_at(4 * count as usize);
    *cur = rest;
    Ok(v)
}

/// Reads `count` little-endian `i32`s; fails when the input runs out.
fn read_i32s(cur: &mut &[u8], count: u32) -> (r: Result<Vec<i32>, MeshError>)
    ensures
        old(cur)@.len() >= 4 * count ==> (r matches Ok(v) && v@ == u32s_at(old(cur)@, 0, count as int).map_values(
            |x: u32| x as i32,
        ) && final(cur)@ == old(cur)@.skip(4 * count)),
        old(cur)@.len() < 4 * count ==> r == Err::<Vec<i32>, MeshError>(MeshError::Take(UnexpectedEnd)),
{
    if count as usize > cur.len() / 4 {
        return Err(MeshError::Take(UnexpectedEnd));
    }
    let c: &[u8] = *cur;
    let total = c.len();
    let mut v: Vec<i32> = Vec::new();
    let mut k: usize = 0;
    while k < count as usize
        invariant
            c@ == old(cur)@,
            total == c@.len(),
            count as usize <= c@.len() / 4,
            k <= count,
            v@ == u32s_at(c@, 0, k as int).map_values(|x: u32| x as i32),
        decreases count - k,
    {
        proof {
            assert(4 * k + 4 <= c@.len()) by (nonlinear_arith)
                requires
                    k < count,
                    count as usize <= c@.len() / 4,
            ;
        }
        let x = u32_at(c, 4 * k) as i32;
        v.push(x);
        k += 1;
        proof {
            assert(v@ =~= u32s_at(c@, 0, k as int).map_values(|x: u32| x as i32));
        }
    }
    proof {
        assert(4 * count <= c@.len()) by (nonlinear_arith)
            requires
                count as usize <= c@.len() / 4,
        ;
    }
    let (_, rest) = c.split_at(4 * count as usize);
    *cur = rest;
    Ok(v)
}


// ── particle constraints ──────────────────────────────────────────────────────

/// A constraint on the cloth's particles. Real numbers are `f32` bits.
#[derive(Debug, Clone, Copy, PartialEq)]
pub enum ParticleConstraint {
    Repeat(u32),
    RepeatEnd,
    Distance { ids: [u32; 2], distance: u32, strength: u32 },
    DistanceMinMax { ids: [u32; 2], min: u32, max: u32 },
    Unbend { ids: [u32; 3], strength: u32 },
    SphereCollision { center: [u32; 3], radius: u32 },
}

/// The bytes the constraint at the front of `b` takes: its type, repeat
/// count and data size (twelve bytes), then sixteen bytes of data for the
/// kinds that carry them; `0` where the list ends (fewer than twelve bytes
/// left, or a kind or size it does not know).
pub open spec fn constraint_len(b: Seq<u8>) -> int {
    if b.len() < 12 {
        0
    } else {
        let t = u32_le(b);
        let size = u32_le(b.skip(8));
        if (t == 0 || t == 1) && size == 0 {
            12
        } else if 2 <= t <= 5 && size == 16 {
            28
        } else {
            0
        }
    }
}

/// Whether `c` is the constraint at the front of `b`.
pub open spec fn constraint_from(c: ParticleConstraint, b: Seq<u8>) -> bool {
    let t = u32_le(b);
    let w = |k: int| u32_le(b.skip(k));
    if t == 0 {
        c == ParticleConstraint::Repeat(u32_le(b.skip(4)))
    } else if t == 1 {
        c == ParticleConstraint::RepeatEnd
    } else if t == 2 {
        c matches ParticleConstraint::Distance { ids, distance, strength } && ids@ == seq![w(12), w(16)]
            && distance == w(20) && strength == w(24)
    } else if t == 3 {
        c matches ParticleConstraint::DistanceMinMax { ids, min, max } && ids@ == seq![w(12), w(16)]
            && min == w(20) && max == w(24)
    } else if t == 4 {
        c matches ParticleConstraint::Unbend { ids, strength } && ids@ == seq![w(12), w(16), w(20)]
            && strength == w(24)
    } else {
        c matches ParticleConstraint::SphereCollision { center, radius } && center@ == seq![w(12), w(16), w(20)]
            && radius == w(24)
    }
}

/// Where the constraints of `b` from `p` on start, up to where the list
/// ends; or running out inside one's data.
pub open spec fn constraints_m(b: Seq<u8>, p: int) -> Result<Seq<int>, MeshError>
    decreases b.len() - p,
{
    if p < 0 || p > b.len() {
        Ok(Seq::empty())
    } else {
        let n = constraint_len(b.skip(p));
        if n == 0 {
            Ok(Seq::empty())
        } else if b.len() - p < n {
            Err(MeshError::Take(UnexpectedEnd))
        } else {
            match constraints_m(b, p + n) {
                Ok(s) => Ok(seq![p] + s),
                Err(e) => Err(e),
            }
        }
    }
}

/// `a` in front of the positions of `r`.
pub open spec fn join_starts(a: Seq<int>, r: Result<Seq<int>, MeshError>) -> Result<Seq<int>, MeshError> {
    match r {
        Ok(s) => Ok(a + s),
        Err(e) => Err(e),
    }
}

impl ParticleConstraint {
    /// Reads a constraint; `None` where the list ends (see
    /// [`constraint_len`]).
    fn parse(i: &mut &[u8]) -> (r: Result<Option<ParticleConstraint>, MeshError>)
        ensures
            final(i)@.len() <= old(i)@.len(),
            constraint_len(old(i)@) == 0 ==> r == Ok::<Option<ParticleConstraint>, MeshError>(None),
            constraint_len(old(i)@) > 0 && old(i)@.len() < constraint_len(old(i)@) ==> r == Err::<
                Option<ParticleConstraint>,
                MeshError,
            >(MeshError::Take(UnexpectedEnd)),
            constraint_len(old(i)@) > 0 && old(i)@.len() >= constraint_len(old(i)@) ==> (r matches Ok(Some(c))
                && constraint_from(c, old(i)@) && final(i)@ == old(i)@.skip(constraint_len(old(i)@))),
    {
        if i.len() < 12 {
            return Ok(None);
        }
        let c: &[u8] = *i;
        let type_id = u32_at(c, 0);
        let repeat_count = u32_at(c, 4);
        let size = u32_at(c, 8);
        if (type_id == 0 || type_id == 1) && size == 0 {
            let (_, rest) = c.split_at(12);
            *i = rest;
            if type_id == 0 {
                return Ok(Some(ParticleConstraint::Repeat(repeat_count)));
            } else {
                return Ok(Some(ParticleConstraint::RepeatEnd));
            }
        }
        if !(2 <= type_id && type_id <= 5 && size == 16) {
            let (_, rest) = c.split_at(12);
            *i = rest;
            return Ok(None);
        }
        if c.len() < 28 {
            return Err(MeshError::Take(UnexpectedEnd));
        }
        let w12 = u32_at(c, 12);
        let w16 = u32_at(c, 16);
        let w20 = u32_at(c, 20);
        let w24 = u32_at(c, 24);
        let (_, rest) = c.split_at(28);
        *i = rest;
        let r = if type_id == 2 {
            ParticleConstraint::Distance { ids: [w12, w16], distance: w20, strength: w24 }
        } else if type_id == 3 {
            ParticleConstraint::DistanceMinMax { ids: [w12, w16], min: w20, max: w24 }
        } else if type_id == 4 {
            ParticleConstraint::Unbend { ids: [w12, w16, w20], strength: w24 }
        } else {
            ParticleConstraint::SphereCollision { center: [w12, w16, w20], radius: w24 }
        };
        proof {
            assert([w12, w16]@ =~= seq![w12, w16]);
            assert([w12, w16, w20]@ =~= seq![w12, w16, w20]);
        }
        Ok(Some(r))
    }
}

/// Reads the constraints of a constraint list, up to where it ends (see
/// [`constraints_m`]).
fn parse_constraints(data: &[u8]) -> (r: Result<Vec<ParticleConstraint>, MeshError>)
    ensures
        match constraints_m(data@, 0) {
            Ok(starts) => r matches Ok(v) && v@.len() == starts.len() && forall|j: int|
                0 <= j < starts.len() ==> constraint_from(#[trigger] v@[j], data@.skip(starts[j])),
            Err(e) => r == Err::<Vec<ParticleConstraint>, MeshError>(e),
        },
{
    let ghost b = data@;
    let mut cur: &[u8] = data;
    let mut constraints: Vec<ParticleConstraint> = Vec::new();
    let ghost mut starts: Seq<int> = Seq::empty();
    let mut done = false;
    proof {
        assert(b.skip(0) =~= b);
        if let Ok(s) = constraints_m(b, 0) {
            assert(Seq::<int>::empty() + s =~= s);
        }
    }
    while !done
        invariant
            b == data@,
            cur@.len() <= b.len(),
            !done ==> cur@ == b.skip(b.len() - cur@.len()),
            constraints@.len() == starts.len(),
            forall|j: int| 0 <= j < starts.len() ==> constraint_from(#[trigger] constraints@[j], b.skip(starts[j])),
            !done ==> constraints_m(b, 0) == join_starts(starts, constraints_m(b, b.len() - cur@.len())),
            done ==> constraints_m(b, 0) == Ok::<Seq<int>, MeshError>(starts),
        decreases cur@.len() + (if done { 0int } else { 1int }),
    {
        let ghost p = b.len() - cur@.len();
        let ghost n = constraint_len(b.skip(p));
        match ParticleConstraint::parse(&mut cur) {
            Ok(Some(c)) => {
                proof {
                    let rest = constraints_m(b, p + n);
                    assert(constraints_m(b, p) == join_starts(seq![p], rest));
                    match rest {
                        Ok(s) => {
                            assert(starts + (seq![p] + s) =~= starts.push(p) + s);
                        },
                        Err(_) => {},
                    }
                    assert(cur@ =~= b.skip(p + n));
                }
                constraints.push(c);
                proof {
                    starts = starts.push(p);
                }
            },
            Ok(None) => {
                proof {
                    assert(constraints_m(b, p) == Ok::<Seq<int>, MeshError>(Seq::empty()));
                    assert(starts + Seq::<int>::empty() =~= starts);
                }
                done = true;
            },
            Err(e) => {
                return Err(e);
            },
        }
    }
    Ok(constraints)
}


// ── particles ─────────────────────────────────────────────────────────────────

/// The cloth's particles and simulation settings. Real numbers are `f32`
/// bits.
#[derive(Debug, Clone, PartialEq)]
pub struct Particles {
    pub timestep: u32,
    pub timestep_changed: u32,
    pub timestep_multiplier: u32,
    pub positions: Vec<[u32; 3]>,
    pub sim_alphas: Vec<u32>,
    pub gravity_strength: u32,
    pub wind_strength: u32,
    pub dragging_enabled: bool,
    pub dragging_rotational: bool,
    pub dragging_strength: u32,
    pub acceleration_enabled: bool,
    pub global_damping: u32,
}

/// The bytes the particles at the front of `b` take: three settings, a
/// count, that many positions and alphas, and nineteen bytes of settings.
pub open spec fn particles_len(b: Seq<u8>) -> int {
    35 + 16 * u32_le(b.skip(12))
}

/// Whether the particles at the front of `b` fit in it.
pub open spec fn particles_fit(b: Seq<u8>) -> bool {
    b.len() >= 16 && b.len() >= particles_len(b)
}

/// Whether `p` holds the particles at the front of `b`.
pub open spec fn particles_from(p: Particles, b: Seq<u8>) -> bool {
    let c = u32_le(b.skip(12)) as int;
    let t = 16 + 16 * c;
    &&& p.timestep == u32_le(b)
    &&& p.timestep_changed == u32_le(b.skip(4))
    &&& p.timestep_multiplier == u32_le(b.skip(8))
    &&& u32_records(rows32(p.positions@), b, 16, c, 3)
    &&& p.sim_alphas@ == u32s_at(b, 16 + 12 * c, c)
    &&& p.gravity_strength == u32_le(b.skip(t))
    &&& p.wind_strength == u32_le(b.skip(t + 4))
    &&& p.dragging_enabled == (b[t + 8] != 0)
    &&& p.dragging_rotational == (b[t + 9] != 0)
    &&& p.dragging_strength == u32_le(b.skip(t + 10))
    &&& p.acceleration_enabled == (b[t + 14] != 0)
    &&& p.global_damping == u32_le(b.skip(t + 15))
}

/// A `u32` at the front of the cursor; running out is `Take`.
fn read_u32(i: &mut &[u8]) -> (r: Result<u32, MeshError>)
    ensures
        old(i)@.len() >= 4 ==> r == Ok::<u32, MeshError>(u32_le(old(i)@)) && final(i)@ == old(i)@.skip(4),
        old(i)@.len() < 4 ==> r == Err::<u32, MeshError>(MeshError::Take(UnexpectedEnd)),
{
    match take_u32(i) {
        Ok(v) => Ok(v),
        Err(e) => Err(MeshError::Take(e)),
    }
}

/// A byte at the front of the cursor; running out is `Take`.
fn read_u8(i: &mut &[u8]) -> (r: Result<u8, MeshError>)
    ensures
        old(i)@.len() >= 1 ==> r == Ok::<u8, MeshError>(old(i)@[0]) && final(i)@ == old(i)@.skip(1),
        old(i)@.len() < 1 ==> r == Err::<u8, MeshError>(MeshError::Take(UnexpectedEnd)),
{
    match take_u8(i) {
        Ok(v) => Ok(v),
        Err(e) => Err(MeshError::Take(e)),
    }
}

impl Particles {
    /// Reads the particles; running out is `Take`.
    fn parse(i: &mut &[u8]) -> (r: Result<Particles, MeshError>)
        ensures
            particles_fit(old(i)@) ==> (r matches Ok(p) && particles_from(p, old(i)@) && final(i)@ == old(i)@.skip(
                particles_len(old(i)@),
            )),
            !particles_fit(old(i)@) ==> r == Err::<Particles, MeshError>(MeshError::Take(UnexpectedEnd)),
    {
        let c: &[u8] = *i;
        let ghost b = c@;
        if c.len() < 16 {
            return Err(MeshError::Take(UnexpectedEnd));
        }
        let count = u32_at(c, 12);
        if (count as u64) * 16 + 35 > c.len() as u64 {
            return Err(MeshError::Take(UnexpectedEnd));
        }
        let ghost k = count as int;
        let t: usize = 16 + 16 * (count as usize);
        let (_, body) = c.split_at(16);
        let mut cur: &[u8] = body;
        let positions = match read_u32x3s(&mut cur, count) {
            Ok(v) => v,
            Err(e) => {
                return Err(e);
            },
        };
        proof {
            assert forall|j: int| 0 <= j < k implies #[trigger] rows32(positions@)[j] == u32s_at(b, 16 + 12 * j, 3) by {
                assert(u32s_at(b.skip(16), 12 * j, 3) =~= u32s_at(b, 16 + 12 * j, 3));
            }
            assert(cur@ =~= b.skip(16 + 12 * k));
        }
        let sim_alphas = match read_u32s(&mut cur, count) {
            Ok(v) => v,
            Err(e) => {
                return Err(e);
            },
        };
        assert(sim_alphas@ =~= u32s_at(b, 16 + 12 * k, k));
        let p = Particles {
            timestep: u32_at(c, 0),
            timestep_changed: u32_at(c, 4),
            timestep_multiplier: u32_at(c, 8),
            positions,
            sim_alphas,
            gravity_strength: u32_at(c, t),
            wind_strength: u32_at(c, t + 4),
            dragging_enabled: c[t + 8] != 0,
            dragging_rotational: c[t + 9] != 0,
            dragging_strength: u32_at(c, t + 10),
            acceleration_enabled: c[t + 14] != 0,
            global_damping: u32_at(c, t + 15),
        };
        let (_, rest) = c.split_at(t + 19);
        *i = rest;
        assert(b.skip(0) =~= b);
        Ok(p)
    }
}


// ── counted runs ──────────────────────────────────────────────────────────────

/// The bytes a `u32` count of `size`-byte records and the records take.
pub open spec fn counted_len(b: Seq<u8>, size: int) -> int {
    4 + size * u32_le(b)
}

/// Whether a counted run of `size`-byte records fits at the front of `b`.
pub open spec fn counted_fit(b: Seq<u8>, size: int) -> bool {
    b.len() >= 4 && b.len() - 4 >= size * u32_le(b)
}

/// Reads a `u32` count and that many records (see [`read_u16x3s`]); running out
/// is `Take`.
fn read_counted_u16x3s(cur: &mut &[u8]) -> (r: Result<Vec<[u16; 3]>, MeshError>)
    ensures
        counted_fit(old(cur)@, 6) ==> (r matches Ok(v) && u16_records(rows16(v@), old(cur)@, 4, u32_le(old(cur)@) as int, 3)
            && final(cur)@ == old(cur)@.skip(counted_len(old(cur)@, 6))),
        !counted_fit(old(cur)@, 6) ==> r == Err::<Vec<[u16; 3]>, MeshError>(MeshError::Take(UnexpectedEnd)),
{
    let ghost b = cur@;
    let count = read_u32(cur)?;
    let v = read_u16x3s(cur, count)?;
    proof {
        assert(cur@ =~= b.skip(counted_len(b, 6)));
        lemma_records_shift(b);
        assert forall|j: int| 0 <= j < count implies #[trigger] rows16(v@)[j] == u16s_at(b, 4 + 6 * j, 3) by {
            assert(6 * j + 6 <= 6 * count) by (nonlinear_arith)
                requires
                    j < count,
            ;
            assert(u16s_at(b.skip(4), 6 * j, 3) == u16s_at(b, 6 * j + 4, 3));
        }
    }
    Ok(v)
}

/// Reads a `u32` count and that many records (see [`read_u16x4s`]); running out
/// is `Take`.
fn read_counted_u16x4s(cur: &mut &[u8]) -> (r: Result<Vec<[u16; 4]>, MeshError>)
    ensures
        counted_fit(old(cur)@, 8) ==> (r matches Ok(v) && u16_records(rows16(v@), old(cur)@, 4, u32_le(old(cur)@) as int, 4)
            && final(cur)@ == old(cur)@.skip(counted_len(old(cur)@, 8))),
        !counted_fit(old(cur)@, 8) ==> r == Err::<Vec<[u16; 4]>, MeshError>(MeshError::Take(UnexpectedEnd)),
{
    let ghost b = cur@;
    let count = read_u32(cur)?;
    let v = read_u16x4s(cur, count)?;
    proof {
        assert(cur@ =~= b.skip(counted_len(b, 8)));
        lemma_records_shift(b);
        assert forall|j: int| 0 <= j < count implies #[trigger] rows16(v@)[j] == u16s_at(b, 4 + 8 * j, 4) by {
            assert(8 * j + 8 <= 8 * count) by (nonlinear_arith)
                requires
                    j < count,
            ;
            assert(u16s_at(b.skip(4), 8 * j, 4) == u16s_at(b, 8 * j + 4, 4));
        }
    }
    Ok(v)
}

/// Reads a `u32` count and that many records (see [`read_u16x2s`]); running out
/// is `Take`.
fn read_counted_u16x2s(cur: &mut &[u8]) -> (r: Result<Vec<[u16; 2]>, MeshError>)
    ensures
        counted_fit(old(cur)@, 4) ==> (r matches Ok(v) && u16_records(rows16(v@), old(cur)@, 4, u32_le(old(cur)@) as int, 2)
            && final(cur)@ == old(cur)@.skip(counted_len(old(cur)@, 4))),
        !counted_fit(old(cur)@, 4) ==> r == Err::<Vec<[u16; 2]>, MeshError>(MeshError::Take(UnexpectedEnd)),
{
    let ghost b = cur@;
    let count = read_u32(cur)?;
    let v = read_u16x2s(cur, count)?;
    proof {
        assert(cur@ =~= b.skip(counted_len(b, 4)));
        lemma_records_shift(b);
        assert forall|j: int| 0 <= j < count implies #[trigger] rows16(v@)[j] == u16s_at(b, 4 + 4 * j, 2) by {
            assert(4 * j + 4 <= 4 * count) by (nonlinear_arith)
                requires
                    j < count,
            ;
            assert(u16s_at(b.skip(4), 4 * j, 2) == u16s_at(b, 4 * j + 4, 2));
        }
    }
    Ok(v)
}

/// Reads a `u32` count and that many records (see [`read_u32x3s`]); running out
/// is `Take`.
fn read_counted_u32x3s(cur: &mut &[u8]) -> (r: Result<Vec<[u32; 3]>, MeshError>)
    ensures
        counted_fit(old(cur)@, 12) ==> (r matches Ok(v) && u32_records(rows32(v@), old(cur)@, 4, u32_le(old(cur)@) as int, 3)
            && final(cur)@ == old(cur)@.skip(counted_len(old(cur)@, 12))),
        !counted_fit(old(cur)@, 12) ==> r == Err::<Vec<[u32; 3]>, MeshError>(MeshError::Take(UnexpectedEnd)),
{
    let ghost b = cur@;
    let count = read_u32(cur)?;
    let v = read_u32x3s(cur, count)?;
    proof {
        assert(cur@ =~= b.skip(counted_len(b, 12)));
        lemma_records_shift(b);
        assert forall|j: int| 0 <= j < count implies #[trigger] rows32(v@)[j] == u32s_at(b, 4 + 12 * j, 3) by {
            assert(12 * j + 12 <= 12 * count) by (nonlinear_arith)
                requires
                    j < count,
            ;
            assert(u32s_at(b.skip(4), 12 * j, 3) == u32s_at(b, 12 * j + 4, 3));
        }
    }
    Ok(v)
}

/// Reads a `u32` count and that many records (see [`read_u32x2s`]); running out
/// is `Take`.
fn read_counted_u32x2s(cur: &mut &[u8]) -> (r: Result<Vec<[u32; 2]>, MeshError>)
    ensures
        counted_fit(old(cur)@, 8) ==> (r matches Ok(v) && u32_records(rows32(v@), old(cur)@, 4, u32_le(old(cur)@) as int, 2)
            && final(cur)@ == old(cur)@.skip(counted_len(old(cur)@, 8))),
        !counted_fit(old(cur)@, 8) ==> r == Err::<Vec<[u32; 2]>, MeshError>(MeshError::Take(UnexpectedEnd)),
{
    let ghost b = cur@;
    let count = read_u32(cur)?;
    let v = read_u32x2s(cur, count)?;
    proof {
        assert(cur@ =~= b.skip(counted_len(b, 8)));
        lemma_records_shift(b);
        assert forall|j: int| 0 <= j < count implies #[trigger] rows32(v@)[j] == u32s_at(b, 4 + 8 * j, 2) by {
            assert(8 * j + 8 <= 8 * count) by (nonlinear_arith)
                requires
                    j < count,
            ;
            assert(u32s_at(b.skip(4), 8 * j, 2) == u32s_at(b, 8 * j + 4, 2));
        }
    }
    Ok(v)
}

/// Reads a `u32` count and that many records (see [`read_i32s`]); running out
/// is `Take`.
fn read_counted_i32s(cur: &mut &[u8]) -> (r: Result<Vec<i32>, MeshError>)
    ensures
        counted_fit(old(cur)@, 4) ==> (r matches Ok(v) && v@ == u32s_at(old(cur)@, 4, u32_le(old(cur)@) as int).map_values(|x: u32| x as i32)
            && final(cur)@ == old(cur)@.skip(counted_len(old(cur)@, 4))),
        !counted_fit(old(cur)@, 4) ==> r == Err::<Vec<i32>, MeshError>(MeshError::Take(UnexpectedEnd)),
{
    let ghost b = cur@;
    let count = read_u32(cur)?;
    let v = read_i32s(cur, count)?;
    proof {
        assert(cur@ =~= b.skip(counted_len(b, 4)));
        lemma_records_shift(b);
        assert(v@ =~= u32s_at(b, 4, count as int).map_values(|x: u32| x as i32));
    }
    Ok(v)
}

/// Records read from the bytes after a count sit at the same places of the
/// whole input, four bytes on.
proof fn lemma_records_shift(b: Seq<u8>)
    ensures
        forall|p: int, n: int|
            0 <= p && 0 <= n && p + 2 * n + 4 <= b.len() ==> #[trigger] u16s_at(b.skip(4), p, n) == u16s_at(b, p + 4, n),
        forall|p: int, n: int|
            0 <= p && 0 <= n && p + 4 * n + 4 <= b.len() ==> #[trigger] u32s_at(b.skip(4), p, n) == u32s_at(b, p + 4, n),
{
    assert forall|p: int, n: int| 0 <= p && 0 <= n && p + 2 * n + 4 <= b.len() implies #[trigger] u16s_at(
        b.skip(4),
        p,
        n,
    ) == u16s_at(b, p + 4, n) by {
        assert forall|k: int| 0 <= k < n implies #[trigger] u16s_at(b.skip(4), p, n)[k] == u16s_at(b, p + 4, n)[k] by {
            assert(b.skip(4).skip(p + 2 * k) =~= b.skip(p + 4 + 2 * k));
        }
        assert(u16s_at(b.skip(4), p, n) =~= u16s_at(b, p + 4, n));
    }
    assert forall|p: int, n: int| 0 <= p && 0 <= n && p + 4 * n + 4 <= b.len() implies #[trigger] u32s_at(
        b.skip(4),
        p,
        n,
    ) == u32s_at(b, p + 4, n) by {
        assert forall|k: int| 0 <= k < n implies #[trigger] u32s_at(b.skip(4), p, n)[k] == u32s_at(b, p + 4, n)[k] by {
            assert(b.skip(4).skip(p + 4 * k) =~= b.skip(p + 4 + 4 * k));
        }
        assert(u32s_at(b.skip(4), p, n) =~= u32s_at(b, p + 4, n));
    }
}


// ── exported particles ────────────────────────────────────────────────────────

/// The first `k` exported particles from `p` on in `b`, each a `u32`-length
/// UTF-8 name and a `u32` particle: their names' bytes and particles, and
/// where they end; or the error of the first that does not read.
pub open spec fn exports_m(b: Seq<u8>, p: int, k: nat) -> Result<(Seq<(Seq<u8>, u32)>, int), MeshError>
    decreases k,
{
    if k == 0 {
        Ok((Seq::empty(), p))
    } else {
        match exports_m(b, p, (k - 1) as nat) {
            Err(e) => Err(e),
            Ok((es, q)) => if b.len() - q < 4 {
                Err(MeshError::Take(UnexpectedEnd))
            } else {
                let l = u32_le(b.skip(q)) as int;
                if b.len() - (q + 4) < l {
                    Err(MeshError::Bytes(UnexpectedEnd))
                } else if !valid_utf8(b.subrange(q + 4, q + 4 + l)) {
                    Err(MeshError::Utf8)
                } else if b.len() - (q + 4 + l) < 4 {
                    Err(MeshError::Take(UnexpectedEnd))
                } else {
                    Ok((es.push((b.subrange(q + 4, q + 4 + l), u32_le(b.skip(q + 4 + l)))), q + 8 + l))
                }
            },
        }
    }
}

/// The first position from `j` on in `m` of the name `n`.
pub open spec fn export_index(m: Seq<(Seq<u8>, u32)>, n: Seq<u8>, j: int) -> Option<int>
    decreases m.len() - j,
{
    if j < 0 || j >= m.len() {
        None
    } else if m[j].0 == n {
        Some(j)
    } else {
        export_index(m, n, j + 1)
    }
}

proof fn lemma_export_index(m: Seq<(Seq<u8>, u32)>, n: Seq<u8>, j: int)
    requires
        0 <= j,
    ensures
        export_index(m, n, j) matches Some(x) ==> j <= x < m.len() && m[x].0 == n,
    decreases m.len() - j,
{
    if j < m.len() && m[j].0 != n {
        lemma_export_index(m, n, j + 1);
    }
}

/// The map that exported particles make: each name once, where it first
/// came, with the particle it last came with.
pub open spec fn export_map(es: Seq<(Seq<u8>, u32)>) -> Seq<(Seq<u8>, u32)>
    decreases es.len(),
{
    if es.len() == 0 {
        Seq::empty()
    } else {
        let m = export_map(es.drop_last());
        let (n, v) = es.last();
        match export_index(m, n, 0) {
            Some(j) => m.update(j, (n, v)),
            None => m.push((n, v)),
        }
    }
}

/// Exported particles by their names' bytes.
pub open spec fn exports_view(v: Seq<(String, u32)>) -> Seq<(Seq<u8>, u32)> {
    v.map_values(|e: (String, u32)| (encode_utf8(e.0@), e.1))
}

proof fn lemma_exports_stop(b: Seq<u8>, j: nat, k: nat)
    requires
        j <= k,
        exports_m(b, 0, j) is Err,
    ensures
        exports_m(b, 0, k) == exports_m(b, 0, j),
    decreases k - j,
{
    if j < k {
        lemma_exports_stop(b, j, (k - 1) as nat);
    }
}

proof fn lemma_exports_pos(b: Seq<u8>, k: nat)
    ensures
        exports_m(b, 0, k) matches Ok((_, q)) ==> 0 <= q <= b.len(),
    decreases k,
{
    if k > 0 {
        lemma_exports_pos(b, (k - 1) as nat);
    }
}

/// The position of the exported particle named `name`, if any.
fn find_export(exports: &Vec<(String, u32)>, name: &str) -> (r: Option<usize>)
    ensures
        match export_index(exports_view(exports@), name.spec_bytes(), 0) {
            Some(j) => r == Some(j as usize),
            None => r is None,
        },
        r matches Some(j) ==> j < exports@.len(),
{
    let ghost m = exports_view(exports@);
    let mut j: usize = 0;
    while j < exports.len()
        invariant
            m == exports_view(exports@),
            j <= exports@.len(),
            export_index(m, name.spec_bytes(), 0) == export_index(m, name.spec_bytes(), j as int),
        decreases exports@.len() - j,
    {
        if str_eq(exports[j].0.as_str(), name) {
            return Some(j);
        }
        j += 1;
    }
    None
}

/// Reads `count` exported particles into a map (see [`export_map`]).
fn read_exports(cur: &mut &[u8], count: u32) -> (r: Result<Vec<(String, u32)>, MeshError>)
    ensures
        match exports_m(old(cur)@, 0, count as nat) {
            Ok((es, q)) => r matches Ok(v) && exports_view(v@) == export_map(es) && final(cur)@ == old(cur)@.skip(q),
            Err(e) => r == Err::<Vec<(String, u32)>, MeshError>(e),
        },
{
    let ghost b = cur@;
    let mut exports: Vec<(String, u32)> = Vec::new();
    let mut k: u32 = 0;
    proof {
        assert(b.skip(0) =~= b);
        assert(exports_view(exports@) =~= Seq::<(Seq<u8>, u32)>::empty());
    }
    while k < count
        invariant
            b == old(cur)@,
            k <= count,
            exports_m(b, 0, k as nat) matches Ok((es, q)) && exports_view(exports@) == export_map(es) && cur@
                == b.skip(q) && 0 <= q <= b.len(),
        decreases count - k,
    {
        let ghost q = b.len() - cur@.len();
        let ghost es = exports_m(b, 0, k as nat)->Ok_0.0;
        let len = match read_u32(cur) {
            Ok(v) => v,
            Err(e) => {
                proof {
                    lemma_exports_stop(b, (k + 1) as nat, count as nat);
                }
                return Err(e);
            },
        };
        assert(cur@ =~= b.skip(q + 4));
        let bytes = match take_bytes(cur, len as usize) {
            Ok(x) => x,
            Err(e) => {
                proof {
                    lemma_exports_stop(b, (k + 1) as nat, count as nat);
                }
                return Err(MeshError::Bytes(e));
            },
        };
        assert(bytes@ =~= b.subrange(q + 4, q + 4 + len));
        assert(cur@ =~= b.skip(q + 4 + len));
        let name = match str_from_utf8(bytes) {
            Some(s) => s,
            None => {
                proof {
                    lemma_exports_stop(b, (k + 1) as nat, count as nat);
                }
                return Err(MeshError::Utf8);
            },
        };
        let value = match read_u32(cur) {
            Ok(v) => v,
            Err(e) => {
                proof {
                    lemma_exports_stop(b, (k + 1) as nat, count as nat);
                }
                return Err(e);
            },
        };
        assert(cur@ =~= b.skip(q + 8 + len));
        let ghost m = exports_view(exports@);
        let ghost n = bytes@;
        proof {
            let es2 = es.push((n, value));
            assert(es2.drop_last() =~= es);
            assert(es2.last() == (n, value));
            assert(export_map(es2) == (match export_index(export_map(es), n, 0) {
                Some(j) => export_map(es).update(j, (n, value)),
                None => export_map(es).push((n, value)),
            }));
            assert(name.spec_bytes() == n);
            lemma_export_index(m, n, 0);
        }
        match find_export(&exports, name) {
            Some(j) => {
                proof {
                    assert(exports.len() == exports@.len());
                }
                exports.set(j, (name.to_owned(), value));
                proof {
                    assert(exports_view(exports@) =~= m.update(j as int, (n, value)));
                    assert(export_index(m, n, 0) == Some(j as int));
                    assert(exports_view(exports@) == export_map(es.push((n, value))));
                }
            },
            None => {
                exports.push((name.to_owned(), value));
                proof {
                    assert(exports_view(exports@) =~= m.push((n, value)));
                    assert(export_index(m, n, 0) is None);
                    assert(exports_view(exports@) == export_map(es.push((n, value))));
                }
            },
        }
        proof {
            assert(exports_view(exports@) == export_map(es.push((n, value))));
            assert(exports_m(b, 0, (k + 1) as nat) == Ok::<(Seq<(Seq<u8>, u32)>, int), MeshError>(
                (es.push((n, value)), q + 8 + len),
            ));
        }
        k += 1;
    }
    Ok(exports)
}


// ── the cloth ─────────────────────────────────────────────────────────────────

/// The cloth of a primitive. Real numbers are `f32` bits; the exported
/// particles are a map, each name once.
#[derive(Debug, Clone, PartialEq)]
pub struct ClothPrimitive {
    pub cloth_id: u32,
    pub material_id: u32,
    pub constraints: Vec<ParticleConstraint>,
    pub particles: Particles,
    pub triangle_indices: Vec<[u16; 3]>,
    pub quad_indices: Vec<[u16; 4]>,
    pub render_vertices: Vec<[u16; 2]>,
    pub non_sim_positions: Vec<[u32; 3]>,
    pub indexed_texture_coords: Vec<[u32; 2]>,
    pub particle_indices: Vec<i32>,
    pub vertex_indices: Vec<i32>,
    pub average_patch_size: u32,
    pub bezier_enabled: bool,
    pub export_particles: Vec<(String, u32)>,
}

/// Where the parts of cloth data `d` start: after a `u32`, a `u32`-counted
/// run of constraint bytes, then the particles and the counted runs of
/// triangles (6 bytes each), quads (8), render vertices (4), positions (12),
/// texture coordinates (8), particle indices (4) and vertex indices (4),
/// then the patch size (4), the bezier flag (1) and the exports.
pub open spec fn cloth_constraints_len(d: Seq<u8>) -> int {
    u32_le(d.skip(4)) as int
}

pub open spec fn pos_particles(d: Seq<u8>) -> int {
    8 + cloth_constraints_len(d)
}

pub open spec fn pos_triangles(d: Seq<u8>) -> int {
    pos_particles(d) + particles_len(d.skip(pos_particles(d)))
}

pub open spec fn pos_quads(d: Seq<u8>) -> int {
    pos_triangles(d) + counted_len(d.skip(pos_triangles(d)), 6)
}

pub open spec fn pos_renders(d: Seq<u8>) -> int {
    pos_quads(d) + counted_len(d.skip(pos_quads(d)), 8)
}

pub open spec fn pos_non_sim(d: Seq<u8>) -> int {
    pos_renders(d) + counted_len(d.skip(pos_renders(d)), 4)
}

pub open spec fn pos_tex(d: Seq<u8>) -> int {
    pos_non_sim(d) + counted_len(d.skip(pos_non_sim(d)), 12)
}

pub open spec fn pos_particle_indices(d: Seq<u8>) -> int {
    pos_tex(d) + counted_len(d.skip(pos_tex(d)), 8)
}

pub open spec fn pos_vertex_indices(d: Seq<u8>) -> int {
    pos_particle_indices(d) + counted_len(d.skip(pos_particle_indices(d)), 4)
}

pub open spec fn pos_patch(d: Seq<u8>) -> int {
    pos_vertex_indices(d) + counted_len(d.skip(pos_vertex_indices(d)), 4)
}

pub open spec fn pos_exports(d: Seq<u8>) -> int {
    pos_patch(d) + 5
}

/// Whether the parts of cloth data `d` after the constraints, up to the
/// count of exports, fit in it.
pub open spec fn cloth_parts_fit(d: Seq<u8>) -> bool {
    &&& particles_fit(d.skip(pos_particles(d)))
    &&& pos_triangles(d) <= d.len() && counted_fit(d.skip(pos_triangles(d)), 6)
    &&& pos_quads(d) <= d.len() && counted_fit(d.skip(pos_quads(d)), 8)
    &&& pos_renders(d) <= d.len() && counted_fit(d.skip(pos_renders(d)), 4)
    &&& pos_non_sim(d) <= d.len() && counted_fit(d.skip(pos_non_sim(d)), 12)
    &&& pos_tex(d) <= d.len() && counted_fit(d.skip(pos_tex(d)), 8)
    &&& pos_particle_indices(d) <= d.len() && counted_fit(d.skip(pos_particle_indices(d)), 4)
    &&& pos_vertex_indices(d) <= d.len() && counted_fit(d.skip(pos_vertex_indices(d)), 4)
    &&& pos_patch(d) <= d.len() && d.len() - pos_patch(d) >= 9
}

/// The constraint bytes of cloth data `d`.
pub open spec fn cloth_constraint_bytes(d: Seq<u8>) -> Seq<u8> {
    d.subrange(8, 8 + cloth_constraints_len(d))
}

/// What reading cloth data `d` gives: the exported particles as read, or
/// the first error.
#[verifier::opaque]
pub open spec fn cloth_body_outcome(d: Seq<u8>) -> Result<Seq<(Seq<u8>, u32)>, MeshError> {
    if d.len() < 8 {
        Err(MeshError::Take(UnexpectedEnd))
    } else if d.len() - 8 < cloth_constraints_len(d) {
        Err(MeshError::Bytes(UnexpectedEnd))
    } else {
        match constraints_m(cloth_constraint_bytes(d), 0) {
            Err(e) => Err(e),
            Ok(_) => if !cloth_parts_fit(d) {
                Err(MeshError::Take(UnexpectedEnd))
            } else {
                match exports_m(d.skip(pos_exports(d) + 4), 0, u32_le(d.skip(pos_exports(d))) as nat) {
                    Err(e) => Err(e),
                    Ok((es, _)) => Ok(es),
                }
            },
        }
    }
}

/// What reading a cloth at the front of `b` gives: its decompressed data
/// and the bytes taken, or the first error. The cloth id, material id and
/// data size come first, then the data as a semi-compressed section.
pub open spec fn cloth_outcome(b: Seq<u8>) -> Result<(Seq<u8>, int), MeshError> {
    if b.len() < 12 {
        Err(MeshError::Take(UnexpectedEnd))
    } else {
        match section_m(b.skip(12), u32_le(b.skip(8)) as usize).0 {
            Err(e) => Err(e),
            Ok(d) => match cloth_body_outcome(d) {
                Err(e) => Err(e),
                Ok(_) => Ok((d, 12 + section_m(b.skip(12), u32_le(b.skip(8)) as usize).1)),
            },
        }
    }
}

/// Whether `c` holds the cloth whose data is `d` and whose ids start `b`.
pub open spec fn cloth_from(c: ClothPrimitive, b: Seq<u8>, d: Seq<u8>) -> bool {
    &&& c.cloth_id == u32_le(b)
    &&& c.material_id == u32_le(b.skip(4))
    &&& cloth_data_from(c, d)
}

/// Whether the parts of `c` after its ids are those that cloth data `d`
/// holds.
#[verifier::opaque]
pub open spec fn cloth_data_from(c: ClothPrimitive, d: Seq<u8>) -> bool {
    &&& constraints_m(cloth_constraint_bytes(d), 0) matches Ok(starts) && c.constraints@.len() == starts.len()
        && forall|j: int|
        0 <= j < starts.len() ==> constraint_from(#[trigger] c.constraints@[j], cloth_constraint_bytes(d).skip(starts[j]))
    &&& particles_from(c.particles, d.skip(pos_particles(d)))
    &&& u16_records(rows16(c.triangle_indices@), d.skip(pos_triangles(d)), 4, u32_le(d.skip(pos_triangles(d))) as int, 3)
    &&& u16_records(rows16(c.quad_indices@), d.skip(pos_quads(d)), 4, u32_le(d.skip(pos_quads(d))) as int, 4)
    &&& u16_records(rows16(c.render_vertices@), d.skip(pos_renders(d)), 4, u32_le(d.skip(pos_renders(d))) as int, 2)
    &&& u32_records(rows32(c.non_sim_positions@), d.skip(pos_non_sim(d)), 4, u32_le(d.skip(pos_non_sim(d))) as int, 3)
    &&& u32_records(rows32(c.indexed_texture_coords@), d.skip(pos_tex(d)), 4, u32_le(d.skip(pos_tex(d))) as int, 2)
    &&& c.particle_indices@ == u32s_at(d.skip(pos_particle_indices(d)), 4, u32_le(d.skip(pos_particle_indices(d))) as int).map_values(
        |x: u32| x as i32,
    )
    &&& c.vertex_indices@ == u32s_at(d.skip(pos_vertex_indices(d)), 4, u32_le(d.skip(pos_vertex_indices(d))) as int).map_values(
        |x: u32| x as i32,
    )
    &&& c.average_patch_size == u32_le(d.skip(pos_patch(d)))
    &&& c.bezier_enabled == (d[pos_patch(d) + 4] != 0)
    &&& cloth_body_outcome(d) matches Ok(es) && exports_view(c.export_particles@) == export_map(es)
}

impl ClothPrimitive {
    /// Reads a cloth (see [`cloth_outcome`] and [`cloth_from`]).
    pub fn parse(i: &mut &[u8]) -> (r: Result<ClothPrimitive, MeshError>)
        ensures
            match cloth_outcome(old(i)@) {
                Ok((d, q)) => r matches Ok(c) && cloth_from(c, old(i)@, d) && final(i)@ == old(i)@.skip(q),
                Err(e) => r == Err::<ClothPrimitive, MeshError>(e),
            },
    {
        let ghost b = i@;
        let cloth_id = read_u32(i)?;
        let material_id = read_u32(i)?;
        assert(i@ =~= b.skip(8));
        let cloth_data_len = read_u32(i)?;
        assert(i@ =~= b.skip(12));
        let data = decompress_section(i, cloth_data_len as usize)?;
        assert(i@ =~= b.skip(12 + section_m(b.skip(12), cloth_data_len as usize).1));
        Self::from_data(cloth_id, material_id, data.as_slice())
    }

    /// The cloth with the given ids whose data is `d` (see
    /// [`cloth_body_outcome`] and [`cloth_data_from`]).
    #[verifier::rlimit(40)]
    fn from_data(cloth_id: u32, material_id: u32, d: &[u8]) -> (r: Result<ClothPrimitive, MeshError>)
        ensures
            match cloth_body_outcome(d@) {
                Ok(_) => r matches Ok(c) && c.cloth_id == cloth_id && c.material_id == material_id
                    && cloth_data_from(c, d@),
                Err(e) => r == Err::<ClothPrimitive, MeshError>(e),
            },
    {
        let ghost dd = d@;
        proof {
            reveal(cloth_body_outcome);
        }
        if d.len() < 8 {
            return Err(MeshError::Take(UnexpectedEnd));
        }
        let constraints_len = u32_at(d, 4) as usize;
        if constraints_len > d.len() - 8 {
            return Err(MeshError::Bytes(UnexpectedEnd));
        }
        let (_, after) = d.split_at(8);
        let (constraint_bytes, rest) = after.split_at(constraints_len);
        assert(constraint_bytes@ =~= cloth_constraint_bytes(dd));
        let constraints = parse_constraints(constraint_bytes)?;
        let mut cur: &[u8] = rest;
        assert(cur@ =~= dd.skip(pos_particles(dd)));
        let body = Self::parse_parts(&mut cur, Ghost(dd))?;
        let (particles, triangle_indices, quad_indices, render_vertices, non_sim_positions) = body.0;
        let (indexed_texture_coords, particle_indices, vertex_indices, average_patch_size, bezier_enabled) = body.1;
        let export_count = u32_at(cur, 0);
        let (_, tail) = cur.split_at(4);
        let mut ecur: &[u8] = tail;
        assert(ecur@ =~= dd.skip(pos_exports(dd) + 4));
        let export_particles = read_exports(&mut ecur, export_count)?;
        let c = ClothPrimitive {
            cloth_id,
            material_id,
            constraints,
            particles,
            triangle_indices,
            quad_indices,
            render_vertices,
            non_sim_positions,
            indexed_texture_coords,
            particle_indices,
            vertex_indices,
            average_patch_size,
            bezier_enabled,
            export_particles,
        };
        proof {
            reveal(cloth_data_from);
        }
        Ok(c)
    }

    /// Reads the parts of cloth data `d` from the particles up to the count
    /// of exports, leaving the cursor at that count.
    #[verifier::rlimit(40)]
    fn parse_parts(cur: &mut &[u8], Ghost(d): Ghost<Seq<u8>>) -> (r: Result<
        (
            (Particles, Vec<[u16; 3]>, Vec<[u16; 4]>, Vec<[u16; 2]>, Vec<[u32; 3]>),
            (Vec<[u32; 2]>, Vec<i32>, Vec<i32>, u32, bool),
        ),
        MeshError,
    >)
        requires
            8 <= pos_particles(d) <= d.len(),
            old(cur)@ == d.skip(pos_particles(d)),
        ensures
            cloth_parts_fit(d) ==> (r matches Ok(((p, t, q, rv, ns), (tx, pi, vi, avg, bz))) && particles_from(
                p,
                d.skip(pos_particles(d)),
            ) && u16_records(rows16(t@), d.skip(pos_triangles(d)), 4, u32_le(d.skip(pos_triangles(d))) as int, 3)
                && u16_records(rows16(q@), d.skip(pos_quads(d)), 4, u32_le(d.skip(pos_quads(d))) as int, 4)
                && u16_records(rows16(rv@), d.skip(pos_renders(d)), 4, u32_le(d.skip(pos_renders(d))) as int, 2)
                && u32_records(rows32(ns@), d.skip(pos_non_sim(d)), 4, u32_le(d.skip(pos_non_sim(d))) as int, 3)
                && u32_records(rows32(tx@), d.skip(pos_tex(d)), 4, u32_le(d.skip(pos_tex(d))) as int, 2)
                && pi@ == u32s_at(d.skip(pos_particle_indices(d)), 4, u32_le(d.skip(pos_particle_indices(d))) as int).map_values(
                |x: u32| x as i32,
            ) && vi@ == u32s_at(d.skip(pos_vertex_indices(d)), 4, u32_le(d.skip(pos_vertex_indices(d))) as int).map_values(
                |x: u32| x as i32,
            ) && avg == u32_le(d.skip(pos_patch(d))) && bz == (d[pos_patch(d) + 4] != 0) && final(cur)@ == d.skip(
                pos_exports(d),
            )),
            !cloth_parts_fit(d) ==> r is Err && r->Err_0 == MeshError::Take(UnexpectedEnd),
    {
        let particles = Particles::parse(cur)?;
        assert(cur@ =~= d.skip(pos_triangles(d)));
        let triangle_indices = read_counted_u16x3s(cur)?;
        assert(cur@ =~= d.skip(pos_quads(d)));
        let quad_indices = read_counted_u16x4s(cur)?;
        assert(cur@ =~= d.skip(pos_renders(d)));
        let render_vertices = read_counted_u16x2s(cur)?;
        assert(cur@ =~= d.skip(pos_non_sim(d)));
        let non_sim_positions = read_counted_u32x3s(cur)?;
        assert(cur@ =~= d.skip(pos_tex(d)));
        let indexed_texture_coords = read_counted_u32x2s(cur)?;
        assert(cur@ =~= d.skip(pos_particle_indices(d)));
        let particle_indices = read_counted_i32s(cur)?;
        assert(cur@ =~= d.skip(pos_vertex_indices(d)));
        let vertex_indices = read_counted_i32s(cur)?;
        assert(cur@ =~= d.skip(pos_patch(d)));
        if cur.len() < 9 {
            return Err(MeshError::Take(UnexpectedEnd));
        }
        let c: &[u8] = *cur;
        let average_patch_size = u32_at(c, 0);
        let bezier_enabled = c[4] != 0;
        let (_, rest) = c.split_at(5);
        *cur = rest;
        assert(cur@ =~= d.skip(pos_exports(d)));
        Ok((
            (particles, triangle_indices, quad_indices, render_vertices, non_sim_positions),
            (indexed_texture_coords, particle_indices, vertex_indices, average_patch_size, bezier_enabled),
        ))
    }
}

} // verus!
