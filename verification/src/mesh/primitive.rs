//! The integer structure of a mesh primitive: its header, its static and
//! animated blocks, the sizes of its vertex and index sections, the index
//! list its blocks expand to, and its cloth primitives. The vertices stay
//! raw bytes here; their attributes are floating point.

use vstd::prelude::*;
use crate::bytes::{take_u32, u16_le, u32_le, UnexpectedEnd};
use crate::mesh::cloth::{cloth_from, cloth_outcome, read_u32s, u32s_at, ClothPrimitive};
use crate::mesh::{
    animated_block_outcome, decompress_section, expand_block, expand_m, lemma_section_len, list_m,
    section_m, strip_m, MeshError, PrimitiveAnimatedBlock, PrimitiveBlock, PrimitiveStaticBlock,
};

verus! {

/// The primitive block whose 11 bytes start `c`.
pub open spec fn block_at(c: Seq<u8>) -> PrimitiveBlock {
    PrimitiveBlock {
        primitive_count: u32_le(c),
        start_index: u32_le(c.skip(4)),
        is_strip: c[8] != 0,
        change_flags: c[9],
        degenerate_triangles: c[10] != 0,
    }
}

/// Whether `s` is the static block at the front of `c`.
pub open spec fn static_from(s: PrimitiveStaticBlock, c: Seq<u8>) -> bool {
    s.base == block_at(c) && s.material_index == u32_le(c.skip(11))
}

/// Whether `k` is the animated block at the front of `c`.
pub open spec fn animated_from(k: PrimitiveAnimatedBlock, c: Seq<u8>) -> bool {
    match animated_block_outcome(c) {
        Ok(d) => {
            &&& k.base == block_at(c)
            &&& k.vertex_count == u32_le(c.skip(11))
            &&& k.bones_per_vertex == u16_le(c.skip(15))
            &&& k.paletted_flag == (c[17] != 0)
            &&& k.groups@ == c.subrange(19, d)
        },
        Err(_) => false,
    }
}

/// Whether `p` is the cloth primitive at the front of `c`.
pub open spec fn cloth_at(p: ClothPrimitive, c: Seq<u8>) -> bool {
    match cloth_outcome(c) {
        Ok((d, _)) => cloth_from(p, c, d),
        Err(_) => false,
    }
}

/// The position that a successful count of bytes gives, `0` otherwise.
pub open spec fn ok_pos(r: Result<int, MeshError>) -> int {
    match r {
        Ok(q) => q,
        Err(_) => 0,
    }
}

/// `n` static blocks of 15 bytes at the front of `c`: the bytes they take,
/// or the error of the first that does not fit.
pub open spec fn statics_m(c: Seq<u8>, n: nat) -> Result<int, MeshError>
    decreases n,
{
    if n == 0 {
        Ok(0)
    } else {
        match statics_m(c, (n - 1) as nat) {
            Err(e) => Err(e),
            Ok(q) => if c.len() - q < 15 {
                Err(MeshError::Take(UnexpectedEnd))
            } else {
                Ok(q + 15)
            },
        }
    }
}

/// `n` animated blocks, one after the other, at the front of `c`: the
/// bytes they take, or the error of the first that fails.
pub open spec fn animated_m(c: Seq<u8>, n: nat) -> Result<int, MeshError>
    decreases n,
{
    if n == 0 {
        Ok(0)
    } else {
        match animated_m(c, (n - 1) as nat) {
            Err(e) => Err(e),
            Ok(q) => match animated_block_outcome(c.skip(q)) {
                Ok(d) => Ok(q + d),
                Err((e, _)) => Err(e),
            },
        }
    }
}

/// `n` cloth primitives, one after the other, at the front of `c`: the
/// bytes they take, or the error of the first that fails.
pub open spec fn cloths_m(c: Seq<u8>, n: nat) -> Result<int, MeshError>
    decreases n,
{
    if n == 0 {
        Ok(0)
    } else {
        match cloths_m(c, (n - 1) as nat) {
            Err(e) => Err(e),
            Ok(q) => match cloth_outcome(c.skip(q)) {
                Ok((_, d)) => Ok(q + d),
                Err(e) => Err(e),
            },
        }
    }
}

/// The bases of `n` static blocks at the front of `c`.
pub open spec fn static_bases(c: Seq<u8>, n: nat) -> Seq<PrimitiveBlock> {
    Seq::new(n, |j: int| block_at(c.skip(15 * j)))
}

/// The bases of `n` animated blocks at the front of `c`.
pub open spec fn animated_bases(c: Seq<u8>, n: nat) -> Seq<PrimitiveBlock> {
    Seq::new(n, |j: int| block_at(c.skip(ok_pos(animated_m(c, j as nat)))))
}

/// The indices of the first `n` blocks of `bs`, each read from the index
/// buffer `id` at its own start index: `None` where a block starts past
/// the end of `id` (slicing there panics), `Some(None)` where a block runs
/// out.
pub open spec fn statics_run_m(id: Seq<u8>, bs: Seq<PrimitiveBlock>, n: nat) -> Option<Option<Seq<u16>>>
    decreases n,
{
    if n == 0 {
        Some(Some(Seq::empty()))
    } else {
        match statics_run_m(id, bs, (n - 1) as nat) {
            Some(Some(s)) => {
                let k = bs[n - 1];
                if 2 * k.start_index > id.len() {
                    None
                } else {
                    let e = expand_m(id.skip(2 * k.start_index), k);
                    if e.0 {
                        Some(Some(s + e.1))
                    } else {
                        Some(None)
                    }
                }
            },
            other => other,
        }
    }
}

/// The indices of the first `n` blocks of `bs`, read one after the other
/// from the front of the index buffer `id`, and the bytes they take; `None`
/// when one runs out.
pub open spec fn animated_indices_m(id: Seq<u8>, bs: Seq<PrimitiveBlock>, n: nat) -> Option<(Seq<u16>, int)>
    decreases n,
{
    if n == 0 {
        Some((Seq::empty(), 0))
    } else {
        match animated_indices_m(id, bs, (n - 1) as nat) {
            None => None,
            Some((s, c)) => {
                let e = expand_m(id.skip(c), bs[n - 1]);
                if e.0 {
                    Some((s + e.1, c + e.2))
                } else {
                    None
                }
            },
        }
    }
}

/// Whether a vertex of `size` bytes holds the attributes that are read from
/// it: a position (a packed `u32` unless the mesh repeats or flag 16 is set,
/// else three `f32`), bone data (8 bytes, skipped when there is room, for an
/// animated mesh that does not repeat), a normal (packed, or three `f32`)
/// and texture coordinates (two `u16`, or two `f32`).
pub open spec fn vertex_fits(size: u32, repeating: bool, animated: bool, init_flags: u32) -> bool {
    let pos: int = if !repeating && init_flags & 16u32 != 16u32 {
        4
    } else {
        12
    };
    let attrs: int = if !repeating {
        8
    } else {
        20
    };
    let after: int = size - pos;
    let skip: int = if !repeating && animated && after >= 8 {
        8
    } else {
        0
    };
    after >= 0 && after - skip >= attrs
}

proof fn lemma_statics_stays(c: Seq<u8>, j: nat, n: nat)
    requires
        j <= n,
        statics_m(c, j) is Err,
    ensures
        statics_m(c, n) == statics_m(c, j),
    decreases n - j,
{
    if j < n {
        lemma_statics_stays(c, j, (n - 1) as nat);
    }
}

proof fn lemma_animated_stays(c: Seq<u8>, j: nat, n: nat)
    requires
        j <= n,
        animated_m(c, j) is Err,
    ensures
        animated_m(c, n) == animated_m(c, j),
    decreases n - j,
{
    if j < n {
        lemma_animated_stays(c, j, (n - 1) as nat);
    }
}

proof fn lemma_cloths_stays(c: Seq<u8>, j: nat, n: nat)
    requires
        j <= n,
        cloths_m(c, j) is Err,
    ensures
        cloths_m(c, n) == cloths_m(c, j),
    decreases n - j,
{
    if j < n {
        lemma_cloths_stays(c, j, (n - 1) as nat);
    }
}

proof fn lemma_statics_run_stays(id: Seq<u8>, bs: Seq<PrimitiveBlock>, j: nat, n: nat)
    requires
        j <= n,
        !(statics_run_m(id, bs, j) matches Some(Some(_))),
    ensures
        statics_run_m(id, bs, n) == statics_run_m(id, bs, j),
    decreases n - j,
{
    if j < n {
        lemma_statics_run_stays(id, bs, j, (n - 1) as nat);
    }
}

proof fn lemma_animated_indices_stays(id: Seq<u8>, bs: Seq<PrimitiveBlock>, j: nat, n: nat)
    requires
        j <= n,
        animated_indices_m(id, bs, j) is None,
    ensures
        animated_indices_m(id, bs, n) is None,
    decreases n - j,
{
    if j < n {
        lemma_animated_indices_stays(id, bs, j, (n - 1) as nat);
    }
}

proof fn lemma_strip_within(v: Seq<u8>, k: nat)
    ensures
        0 <= strip_m(v, k).2 <= v.len(),
    decreases k,
{
    if k > 0 {
        lemma_strip_within(v, (k - 1) as nat);
    }
}

proof fn lemma_list_within(v: Seq<u8>, k: nat)
    ensures
        0 <= list_m(v, k).2 <= v.len(),
    decreases k,
{
    if k > 0 {
        lemma_list_within(v, (k - 1) as nat);
    }
}

/// Reads `n` static blocks (see [`statics_m`]).
fn parse_statics(i: &mut &[u8], n: u32) -> (r: Result<Vec<PrimitiveStaticBlock>, MeshError>)
    ensures
        match statics_m(old(i)@, n as nat) {
            Ok(q) => r matches Ok(v) && v@.len() == n && (forall|j: int|
                0 <= j < n ==> static_from(#[trigger] v@[j], old(i)@.skip(15 * j))) && final(i)@ == old(i)@.skip(q),
            Err(e) => r == Err::<Vec<PrimitiveStaticBlock>, MeshError>(e),
        },
{
    let ghost c = i@;
    let mut v: Vec<PrimitiveStaticBlock> = Vec::new();
    let mut k: u32 = 0;
    while k < n
        invariant
            c == old(i)@,
            k <= n,
            v@.len() == k,
            statics_m(c, k as nat) == Ok::<int, MeshError>(15 * k),
            15 * k <= c.len(),
            i@ == c.skip(15 * k),
            forall|j: int| 0 <= j < k ==> static_from(#[trigger] v@[j], c.skip(15 * j)),
        decreases n - k,
    {
        let ghost p = 15 * k;
        match PrimitiveStaticBlock::parse(i) {
            Ok(s) => {
                assert(c.skip(p).skip(15) =~= c.skip(p + 15));
                v.push(s);
                k += 1;
                assert(statics_m(c, k as nat) == Ok::<int, MeshError>(15 * k));
            },
            Err(e) => {
                proof {
                    lemma_statics_stays(c, (k + 1) as nat, n as nat);
                }
                return Err(e);
            },
        }
    }
    Ok(v)
}

/// Reads `n` animated blocks (see [`animated_m`]).
fn parse_animated(i: &mut &[u8], n: u32) -> (r: Result<Vec<PrimitiveAnimatedBlock>, MeshError>)
    ensures
        match animated_m(old(i)@, n as nat) {
            Ok(q) => r matches Ok(v) && v@.len() == n && (forall|j: int|
                0 <= j < n ==> animated_from(#[trigger] v@[j], old(i)@.skip(ok_pos(animated_m(old(i)@, j as nat)))))
                && final(i)@ == old(i)@.skip(q),
            Err(e) => r == Err::<Vec<PrimitiveAnimatedBlock>, MeshError>(e),
        },
{
    let ghost c = i@;
    let mut v: Vec<PrimitiveAnimatedBlock> = Vec::new();
    let mut k: u32 = 0;
    while k < n
        invariant
            c == old(i)@,
            k <= n,
            v@.len() == k,
            animated_m(c, k as nat) is Ok,
            0 <= ok_pos(animated_m(c, k as nat)) <= c.len(),
            i@ == c.skip(ok_pos(animated_m(c, k as nat))),
            forall|j: int| 0 <= j < k ==> animated_from(#[trigger] v@[j], c.skip(ok_pos(animated_m(c, j as nat)))),
        decreases n - k,
    {
        let ghost p = ok_pos(animated_m(c, k as nat));
        match PrimitiveAnimatedBlock::parse(i) {
            Ok(blk) => {
                assert(animated_block_outcome(c.skip(p)) is Ok);
                let ghost d = animated_block_outcome(c.skip(p))->Ok_0;
                assert(c.skip(p).skip(d) =~= c.skip(p + d));
                v.push(blk);
                k += 1;
                assert(animated_m(c, k as nat) == Ok::<int, MeshError>(p + d));
                assert(animated_from(v@[k - 1], c.skip(ok_pos(animated_m(c, (k - 1) as nat)))));
            },
            Err(e) => {
                proof {
                    lemma_animated_stays(c, (k + 1) as nat, n as nat);
                }
                return Err(e);
            },
        }
    }
    Ok(v)
}

/// Reads `n` cloth primitives (see [`cloths_m`]).
fn parse_cloths(i: &mut &[u8], n: u32) -> (r: Result<Vec<ClothPrimitive>, MeshError>)
    ensures
        match cloths_m(old(i)@, n as nat) {
            Ok(q) => r matches Ok(v) && v@.len() == n && (forall|j: int|
                0 <= j < n ==> cloth_at(#[trigger] v@[j], old(i)@.skip(ok_pos(cloths_m(old(i)@, j as nat)))))
                && final(i)@ == old(i)@.skip(q),
            Err(e) => r == Err::<Vec<ClothPrimitive>, MeshError>(e),
        },
{
    let ghost c = i@;
    let mut v: Vec<ClothPrimitive> = Vec::new();
    let mut k: u32 = 0;
    while k < n
        invariant
            c == old(i)@,
            k <= n,
            v@.len() == k,
            cloths_m(c, k as nat) is Ok,
            0 <= ok_pos(cloths_m(c, k as nat)) <= c.len(),
            i@ == c.skip(ok_pos(cloths_m(c, k as nat))),
            forall|j: int| 0 <= j < k ==> cloth_at(#[trigger] v@[j], c.skip(ok_pos(cloths_m(c, j as nat)))),
        decreases n - k,
    {
        let ghost p = ok_pos(cloths_m(c, k as nat));
        match ClothPrimitive::parse(i) {
            Ok(cp) => {
                let ghost s = c.skip(p);
                assert(cloth_outcome(s) is Ok);
                let ghost d = cloth_outcome(s)->Ok_0.1;
                proof {
                    lemma_section_len(s.skip(12), u32_le(s.skip(8)) as usize);
                }
                assert(c.skip(p).skip(d) =~= c.skip(p + d));
                v.push(cp);
                k += 1;
                assert(cloths_m(c, k as nat) == Ok::<int, MeshError>(p + d));
                assert(cloth_at(v@[k - 1], c.skip(ok_pos(cloths_m(c, (k - 1) as nat)))));
            },
            Err(e) => {
                proof {
                    lemma_cloths_stays(c, (k + 1) as nat, n as nat);
                }
                return Err(e);
            },
        }
    }
    Ok(v)
}

/// The bases of the static blocks `bs`.
pub open spec fn static_block_bases(bs: Seq<PrimitiveStaticBlock>) -> Seq<PrimitiveBlock> {
    Seq::new(bs.len(), |j: int| bs[j].base)
}

/// The bases of the animated blocks `bs`.
pub open spec fn animated_block_bases(bs: Seq<PrimitiveAnimatedBlock>) -> Seq<PrimitiveBlock> {
    Seq::new(bs.len(), |j: int| bs[j].base)
}

/// Appends the indices of the static blocks, each read from `id` at its
/// start index (see [`statics_run_m`]); `None` where a block starts past
/// the end of `id`.
fn expand_statics(id: &[u8], blocks: &Vec<PrimitiveStaticBlock>, indices: &mut Vec<u16>) -> (r: Option<
    Result<(), MeshError>,
>)
    ensures
        match statics_run_m(id@, static_block_bases(blocks@), blocks@.len()) {
            Some(Some(s)) => r == Some(Ok::<(), MeshError>(())) && final(indices)@ == old(indices)@ + s,
            Some(None) => r == Some(Err::<(), MeshError>(MeshError::Take(UnexpectedEnd))),
            None => r is None,
        },
{
    let ghost bs = static_block_bases(blocks@);
    let ghost base = indices@;
    let mut k: usize = 0;
    while k < blocks.len()
        invariant
            bs == static_block_bases(blocks@),
            base == old(indices)@,
            k <= blocks@.len(),
            statics_run_m(id@, bs, k as nat) matches Some(Some(s)) && indices@ == base + s,
        decreases blocks@.len() - k,
    {
        let blk = &blocks[k];
        assert(id@.len() == id.len());
        if blk.base.start_index as usize > id.len() / 2 {
            proof {
                assert(2 * bs[k as int].start_index > id@.len());
                lemma_statics_run_stays(id@, bs, (k + 1) as nat, blocks@.len());
            }
            return None;
        }
        let start: usize = blk.base.start_index as usize * 2;
        let (_, tail) = id.split_at(start);
        let mut view: &[u8] = tail;
        assert(view@ =~= id@.skip(2 * bs[k as int].start_index));
        match expand_block(&mut view, &blk.base, indices) {
            Ok(()) => {
                k += 1;
                proof {
                    let s = statics_run_m(id@, bs, (k - 1) as nat)->Some_0->Some_0;
                    assert(indices@ =~= base + (s + expand_m(id@.skip(2 * bs[k - 1].start_index), bs[k - 1]).1));
                }
            },
            Err(e) => {
                proof {
                    lemma_statics_run_stays(id@, bs, (k + 1) as nat, blocks@.len());
                }
                return Some(Err(e));
            },
        }
    }
    Some(Ok(()))
}

/// Appends the indices of the animated blocks, read one after the other
/// from the front of `id` (see [`animated_indices_m`]).
fn expand_animated(id: &[u8], blocks: &Vec<PrimitiveAnimatedBlock>, indices: &mut Vec<u16>) -> (r: Result<(), MeshError>)
    ensures
        match animated_indices_m(id@, animated_block_bases(blocks@), blocks@.len()) {
            Some((s, _)) => r is Ok && final(indices)@ == old(indices)@ + s,
            None => r == Err::<(), MeshError>(MeshError::Take(UnexpectedEnd)),
        },
{
    let ghost bs = animated_block_bases(blocks@);
    let ghost base = indices@;
    let mut view: &[u8] = id;
    let mut k: usize = 0;
    while k < blocks.len()
        invariant
            bs == animated_block_bases(blocks@),
            base == old(indices)@,
            k <= blocks@.len(),
            animated_indices_m(id@, bs, k as nat) matches Some((s, c)) && indices@ == base + s && 0 <= c
                <= id@.len() && view@ == id@.skip(c),
        decreases blocks@.len() - k,
    {
        let blk = &blocks[k];
        let ghost c = animated_indices_m(id@, bs, k as nat)->Some_0.1;
        let ghost s = animated_indices_m(id@, bs, k as nat)->Some_0.0;
        proof {
            lemma_strip_within(view@, blk.base.primitive_count as nat);
            lemma_list_within(view@, blk.base.primitive_count as nat);
        }
        match expand_block(&mut view, &blk.base, indices) {
            Ok(()) => {
                let ghost e = expand_m(id@.skip(c), bs[k as int]);
                assert(id@.skip(c).skip(e.2) =~= id@.skip(c + e.2));
                k += 1;
                assert(indices@ =~= base + (s + e.1));
            },
            Err(e) => {
                proof {
                    lemma_animated_indices_stays(id@, bs, (k + 1) as nat, blocks@.len());
                }
                return Err(e);
            },
        }
    }
    Ok(())
}

/// Whether a vertex of `size` bytes holds the attributes read from it (see
/// [`vertex_fits`]).
pub fn vertex_window_fits(size: u32, repeating: bool, animated: bool, init_flags: u32) -> (r: bool)
    ensures
        r == vertex_fits(size, repeating, animated, init_flags),
{
    let pos: u32 = if !repeating && init_flags & 16 != 16 {
        4
    } else {
        12
    };
    if size < pos {
        return false;
    }
    let after = size - pos;
    let skip: u32 = if !repeating && animated && after >= 8 {
        8
    } else {
        0
    };
    let attrs: u32 = if !repeating {
        8
    } else {
        20
    };
    after - skip >= attrs
}

/// A mesh primitive with its floating-point values kept as their bits and
/// its vertices as the raw bytes of the vertex section.
#[derive(Debug, Clone)]
pub struct PrimitiveLayout {
    pub material_index: u32,
    pub repeating_mesh_reps: u32,
    /// The bits of the bounding sphere's centre and radius.
    pub bounding_sphere: Vec<u32>,
    /// The bits of the average texture stretch.
    pub average_texture_stretch: u32,
    pub vertex_count: u32,
    pub triangle_count: u32,
    pub index_count: u32,
    pub init_flags: u32,
    pub static_blocks: Vec<PrimitiveStaticBlock>,
    pub animated_blocks: Vec<PrimitiveAnimatedBlock>,
    /// The bits of the position scale.
    pub pos_scale: Vec<u32>,
    /// The bits of the position bias.
    pub pos_bias: Vec<u32>,
    pub vertex_size: u32,
    /// The vertex section: `vertex_count` times the repetitions, each of
    /// `vertex_size` bytes.
    pub vertex_data: Vec<u8>,
    /// The triangles of the static blocks, then of the animated blocks.
    pub indices: Vec<u16>,
    pub cloth_primitives: Vec<ClothPrimitive>,
}

/// How many copies of its base mesh a primitive stores.
pub open spec fn reps_of(r: u32) -> int {
    if r < 2 {
        1
    } else {
        r as int
    }
}

/// Where the parts of a primitive start, and what its sections hold.
pub struct PrimitiveMarks {
    /// The input from the animated blocks on.
    pub animated: Seq<u8>,
    /// The input from the position scale on.
    pub tail: Seq<u8>,
    /// The input from the cloth count on.
    pub cloth: Seq<u8>,
    pub vertex_data: Seq<u8>,
    pub indices: Seq<u16>,
    /// The input after the primitive.
    pub rest: Seq<u8>,
}

/// What follows the scale and bias of a primitive: the vertex section, the
/// check that a vertex holds its attributes, the index section, the index
/// list of the blocks, and the cloth primitives. `b` is the whole input, `c2`
/// the input from the animated blocks on and `c3` from the scale on. `None`
/// where reading panics: a section size that overflows a machine word, or a
/// static block that starts past the end of the index section.
pub open spec fn primitive_sections(b: Seq<u8>, c2: Seq<u8>, c3: Seq<u8>) -> Option<Result<PrimitiveMarks, MeshError>> {
    let t = MeshError::Take(UnexpectedEnd);
    let w = u32s_at(b, 0, 15);
    let reps = reps_of(w[1]);
    let vsize = u32_le(c3.skip(32));
    let c4 = c3.skip(40);
    if w[9] * reps > usize::MAX || w[9] * reps * vsize > usize::MAX {
        None
    } else {
        let vs = section_m(c4, (w[9] * reps * vsize) as usize);
        match vs.0 {
            Err(e) => Some(Err(e)),
            Ok(vd) => if w[9] * reps > 0 && !vertex_fits(vsize, w[1] > 0, w[14] > 0, w[12]) {
                Some(Err(t))
            } else if 2 * w[11] * reps > usize::MAX {
                None
            } else {
                let c5 = c4.skip(vs.1);
                let is = section_m(c5, (2 * w[11] * reps) as usize);
                match is.0 {
                    Err(e) => Some(Err(e)),
                    Ok(id) => match statics_run_m(id, static_bases(b.skip(60), w[13] as nat), w[13] as nat) {
                        None => None,
                        Some(None) => Some(Err(t)),
                        Some(Some(s1)) => match animated_indices_m(id, animated_bases(c2, w[14] as nat), w[14] as nat) {
                            None => Some(Err(t)),
                            Some((s2, _)) => {
                                let c6 = c5.skip(is.1);
                                if c6.len() < 4 {
                                    Some(Err(t))
                                } else {
                                    let c7 = c6.skip(4);
                                    match cloths_m(c7, u32_le(c6) as nat) {
                                        Err(e) => Some(Err(e)),
                                        Ok(q7) => Some(
                                            Ok(
                                                PrimitiveMarks {
                                                    animated: c2,
                                                    tail: c3,
                                                    cloth: c6,
                                                    vertex_data: vd,
                                                    indices: s1 + s2,
                                                    rest: c7.skip(q7),
                                                },
                                            ),
                                        ),
                                    }
                                }
                            },
                        },
                    },
                }
            },
        }
    }
}

/// Reading a primitive at the front of `b`: fifteen `u32` header words
/// (material index, repetitions, bounding sphere, texture stretch, two count
/// hints, vertex, triangle and index counts, flags, static and animated
/// block counts), the static blocks, the animated blocks, ten words of
/// scale, bias, vertex size and padding, then [`primitive_sections`]. `None`
/// where it panics.
pub open spec fn primitive_run(b: Seq<u8>) -> Option<Result<PrimitiveMarks, MeshError>> {
    let t = MeshError::Take(UnexpectedEnd);
    if b.len() < 60 {
        Some(Err(t))
    } else {
        let w = u32s_at(b, 0, 15);
        let c1 = b.skip(60);
        match statics_m(c1, w[13] as nat) {
            Err(e) => Some(Err(e)),
            Ok(q1) => {
                let c2 = c1.skip(q1);
                match animated_m(c2, w[14] as nat) {
                    Err(e) => Some(Err(e)),
                    Ok(q2) => {
                        let c3 = c2.skip(q2);
                        if c3.len() < 40 {
                            Some(Err(t))
                        } else {
                            primitive_sections(b, c2, c3)
                        }
                    },
                }
            },
        }
    }
}

/// The inputs on which reading a primitive does not panic.
pub open spec fn primitive_fits(b: Seq<u8>) -> bool {
    primitive_run(b) is Some
}

/// The primitive at the front of `b`, or the error met reading it, where
/// reading it does not panic.
pub open spec fn primitive_outcome(b: Seq<u8>) -> Result<PrimitiveMarks, MeshError> {
    primitive_run(b)->Some_0
}

/// Whether `l` holds the primitive at the front of `b`, whose parts `m`
/// marks.
pub open spec fn layout_from(l: PrimitiveLayout, b: Seq<u8>, m: PrimitiveMarks) -> bool {
    &&& l.material_index == u32_le(b)
    &&& l.repeating_mesh_reps == u32_le(b.skip(4))
    &&& l.bounding_sphere@ == u32s_at(b, 8, 4)
    &&& l.average_texture_stretch == u32_le(b.skip(24))
    &&& l.vertex_count == u32_le(b.skip(36))
    &&& l.triangle_count == u32_le(b.skip(40))
    &&& l.index_count == u32_le(b.skip(44))
    &&& l.init_flags == u32_le(b.skip(48))
    &&& l.static_blocks@.len() == u32_le(b.skip(52))
    &&& forall|j: int|
        0 <= j < l.static_blocks@.len() ==> static_from(#[trigger] l.static_blocks@[j], b.skip(60).skip(15 * j))
    &&& l.animated_blocks@.len() == u32_le(b.skip(56))
    &&& forall|j: int|
        0 <= j < l.animated_blocks@.len() ==> animated_from(
            #[trigger] l.animated_blocks@[j],
            m.animated.skip(ok_pos(animated_m(m.animated, j as nat))),
        )
    &&& l.pos_scale@ == u32s_at(m.tail, 0, 4)
    &&& l.pos_bias@ == u32s_at(m.tail, 16, 4)
    &&& l.vertex_size == u32_le(m.tail.skip(32))
    &&& l.vertex_data@ == m.vertex_data
    &&& l.indices@ == m.indices
    &&& l.cloth_primitives@.len() == u32_le(m.cloth)
    &&& forall|j: int|
        0 <= j < l.cloth_primitives@.len() ==> cloth_at(
            #[trigger] l.cloth_primitives@[j],
            m.cloth.skip(4).skip(ok_pos(cloths_m(m.cloth.skip(4), j as nat))),
        )
}

/// Copies `n` words of `v` from `from` on.
fn words_from(v: &Vec<u32>, from: usize, n: usize) -> (r: Vec<u32>)
    requires
        from + n <= v.len(),
    ensures
        r@ == v@.subrange(from as int, from + n),
{
    let mut out: Vec<u32> = Vec::new();
    let mut k: usize = 0;
    while k < n
        invariant
            from + n <= v.len(),
            k <= n,
            out@ == v@.subrange(from as int, from + k),
        decreases n - k,
    {
        out.push(v[from + k]);
        k += 1;
        assert(out@ =~= v@.subrange(from as int, from + k));
    }
    out
}

/// Reads a primitive (see [`primitive_run`]): its header, blocks and
/// sections, the index list its blocks expand to, and its cloth primitives;
/// the vertices stay the raw bytes of their section. `None` where reading
/// it panics: a section size that overflows a machine word, or a static
/// block that starts past the end of the index section.
#[verifier::rlimit(60)]
#[verifier::spinoff_prover]
pub fn parse_primitive_checked(i: &mut &[u8]) -> (r: Option<Result<PrimitiveLayout, MeshError>>)
    ensures
        match primitive_run(old(i)@) {
            Some(Ok(m)) => r matches Some(Ok(l)) && layout_from(l, old(i)@, m) && final(i)@ == m.rest,
            Some(Err(e)) => r == Some(Err::<PrimitiveLayout, MeshError>(e)),
            None => r is None,
        },
{
    let ghost b = i@;
    let t = MeshError::Take(UnexpectedEnd);
    let head = match read_u32s(i, 15) {
        Ok(h) => h,
        Err(e) => {
            return Some(Err(e));
        },
    };
    let ghost w = u32s_at(b, 0, 15);
    assert(head@ == w);
    let ghost c1 = i@;
    assert(c1 == b.skip(60));
    let statics = match parse_statics(i, head[13]) {
        Ok(v) => v,
        Err(e) => {
            return Some(Err(e));
        },
    };
    let ghost c2 = i@;
    assert(c2 == c1.skip(ok_pos(statics_m(c1, w[13] as nat))));
    let animated = match parse_animated(i, head[14]) {
        Ok(v) => v,
        Err(e) => {
            return Some(Err(e));
        },
    };
    let ghost c3 = i@;
    assert(c3 == c2.skip(ok_pos(animated_m(c2, w[14] as nat))));
    let tail = match read_u32s(i, 10) {
        Ok(v) => v,
        Err(e) => {
            return Some(Err(e));
        },
    };
    assert(tail@ == u32s_at(c3, 0, 10));
    let ghost c4 = i@;
    assert(c4 == c3.skip(40));
    let reps: u32 = if head[1] < 2 {
        1
    } else {
        head[1]
    };
    assert(reps == reps_of(w[1]));
    let total: usize = match (head[9] as usize).checked_mul(reps as usize) {
        Some(x) => x,
        None => {
            return None;
        },
    };
    let vsize: usize = match total.checked_mul(tail[8] as usize) {
        Some(x) => x,
        None => {
            return None;
        },
    };
    let vertex_data = match decompress_section(i, vsize) {
        Ok(v) => v,
        Err(e) => {
            return Some(Err(e));
        },
    };
    if total > 0 && !vertex_window_fits(tail[8], head[1] > 0, head[14] > 0, head[12]) {
        return Some(Err(t));
    }
    proof {
        let x = w[11] as int;
        let y = reps as int;
        assert(2 * x <= 2 * x * y && 2 * x * y == (2 * x) * y) by (nonlinear_arith)
            requires
                y >= 1,
                x >= 0,
        ;
    }
    let two_index: usize = match (head[11] as usize).checked_mul(2) {
        Some(x) => x,
        None => {
            return None;
        },
    };
    let isize: usize = match two_index.checked_mul(reps as usize) {
        Some(x) => x,
        None => {
            return None;
        },
    };
    let index_data = match decompress_section(i, isize) {
        Ok(v) => v,
        Err(e) => {
            return Some(Err(e));
        },
    };
    let mut indices: Vec<u16> = Vec::new();
    proof {
        assert forall|j: int| 0 <= j < statics@.len() implies static_block_bases(statics@)[j] == static_bases(
            c1,
            w[13] as nat,
        )[j] by {
            assert(static_from(statics@[j], c1.skip(15 * j)));
        }
        assert(static_block_bases(statics@) =~= static_bases(c1, w[13] as nat));
        assert(animated_block_bases(animated@) =~= animated_bases(c2, w[14] as nat));
    }
    match expand_statics(&index_data, &statics, &mut indices) {
        Some(Ok(())) => {},
        Some(Err(e)) => {
            return Some(Err(e));
        },
        None => {
            return None;
        },
    }
    match expand_animated(&index_data, &animated, &mut indices) {
        Ok(()) => {},
        Err(e) => {
            return Some(Err(e));
        },
    }
    let cloth_count = match take_u32(i) {
        Ok(v) => v,
        Err(_) => {
            return Some(Err(t));
        },
    };
    let cloth_primitives = match parse_cloths(i, cloth_count) {
        Ok(v) => v,
        Err(e) => {
            return Some(Err(e));
        },
    };
    let bounding_sphere = words_from(&head, 2, 4);
    let pos_scale = words_from(&tail, 0, 4);
    let pos_bias = words_from(&tail, 4, 4);
    proof {
        assert(bounding_sphere@ =~= u32s_at(b, 8, 4));
        assert(pos_scale@ =~= u32s_at(c3, 0, 4));
        assert(pos_bias@ =~= u32s_at(c3, 16, 4));
    }
    Some(
        Ok(
            PrimitiveLayout {
                material_index: head[0],
                repeating_mesh_reps: head[1],
                bounding_sphere,
                average_texture_stretch: head[6],
                vertex_count: head[9],
                triangle_count: head[10],
                index_count: head[11],
                init_flags: head[12],
                static_blocks: statics,
                animated_blocks: animated,
                pos_scale,
                pos_bias,
                vertex_size: tail[8],
                vertex_data,
                indices,
                cloth_primitives,
            },
        ),
    )
}

/// Reads a primitive (see [`primitive_outcome`]), on an input on which
/// reading does not panic (see [`parse_primitive_checked`]).
pub fn parse_primitive_layout(i: &mut &[u8]) -> (r: Result<PrimitiveLayout, MeshError>)
    requires
        primitive_fits(old(i)@),
    ensures
        match primitive_outcome(old(i)@) {
            Ok(m) => r matches Ok(l) && layout_from(l, old(i)@, m) && final(i)@ == m.rest,
            Err(e) => r == Err::<PrimitiveLayout, MeshError>(e),
        },
{
    match parse_primitive_checked(i) {
        Some(r) => r,
        None => {
            assert(false);
            Err(MeshError::Take(UnexpectedEnd))
        },
    }
}

} // verus!
