//! A whole mesh: its name, bounding volumes, helper points and dummies and
//! their names, bones with their names, keyframes and transforms, the
//! mesh's transform, its materials and its primitives. Floating-point
//! values are kept as their bits; a record section is kept as its
//! little-endian `u32` words, each record taking a fixed number of them.

use vstd::prelude::*;
use crate::bytes::{take_u16, take_u32, take_u8, u16_le, u32_le, UnexpectedEnd};
use crate::mesh::cloth::{read_u32s, u32_at, u32s_at};
use crate::mesh::primitive::{layout_from, parse_primitive_checked, primitive_run, PrimitiveLayout};
use crate::mesh::{
    bone_names_m, decode_bone_names, decode_helper_names, decompress_section, helper_names_m, material_from,
    material_outcome, name_m, read_str_nul, section_m, Material, MeshError,
};
use vstd::utf8::encode_utf8;

verus! {

/// The words of a section of `count` records of `width` words at the front
/// of `b`, and the bytes taken: nothing when `count` is zero, else a
/// semi-compressed section of `4 * width * count` bytes. `None` where that
/// size overflows a machine word.
pub open spec fn records_m(b: Seq<u8>, count: nat, width: nat) -> Option<(Result<Seq<u32>, MeshError>, int)> {
    if count == 0 {
        Some((Ok(Seq::empty()), 0))
    } else if 4 * width * count > usize::MAX {
        None
    } else {
        let s = section_m(b, (4 * width * count) as usize);
        match s.0 {
            Err(e) => Some((Err(e), s.1)),
            Ok(d) => Some((Ok(u32s_at(d, 0, (width * count) as int)), s.1)),
        }
    }
}

/// Reads a section of `count` records of `width` words (see [`records_m`]).
fn read_records(i: &mut &[u8], count: u32, width: usize) -> (r: Option<Result<Vec<u32>, MeshError>>)
    requires
        1 <= width <= 16,
    ensures
        match records_m(old(i)@, count as nat, width as nat) {
            None => r is None,
            Some((Err(e), _)) => r == Some(Err::<Vec<u32>, MeshError>(e)),
            Some((Ok(w), q)) => r matches Some(Ok(v)) && v@ == w && final(i)@ == old(i)@.skip(q),
        },
{
    if count == 0 {
        assert(i@ =~= i@.skip(0));
        return Some(Ok(Vec::new()));
    }
    let n: usize = match (count as usize).checked_mul(width) {
        Some(x) => x,
        None => {
            assert(4 * width * count > usize::MAX) by (nonlinear_arith)
                requires
                    count * width > usize::MAX,
                    width >= 1,
                    count >= 1,
            ;
            return None;
        },
    };
    let size: usize = match n.checked_mul(4) {
        Some(x) => x,
        None => {
            assert(4 * width * count == 4 * (count * width)) by (nonlinear_arith);
            return None;
        },
    };
    assert(size == 4 * width * count) by (nonlinear_arith)
        requires
            n == count * width,
            size == n * 4,
    ;
    let data = match decompress_section(i, size) {
        Ok(d) => d,
        Err(e) => {
            return Some(Err(e));
        },
    };
    let mut v: Vec<u32> = Vec::new();
    let mut k: usize = 0;
    while k < n
        invariant
            k <= n,
            data@.len() == size,
            size == 4 * n,
            v@ == u32s_at(data@, 0, k as int),
        decreases n - k,
    {
        let x = u32_at(data.as_slice(), 4 * k);
        v.push(x);
        k += 1;
        assert(v@ =~= u32s_at(data@, 0, k as int));
    }
    Some(Ok(v))
}

/// What follows `n` materials at the front of `c`, or the error of the
/// first that fails.
pub open spec fn materials_m(c: Seq<u8>, n: nat) -> Result<Seq<u8>, MeshError>
    decreases n,
{
    if n == 0 {
        Ok(c)
    } else {
        match materials_m(c, (n - 1) as nat) {
            Err(e) => Err(e),
            Ok(s) => match material_outcome(s) {
                Ok(d) => Ok(s.skip(d)),
                Err((e, _)) => Err(e),
            },
        }
    }
}

/// What follows `n` primitives at the front of `c`, or the error of the
/// first that fails; `None` where reading one panics.
pub open spec fn primitives_m(c: Seq<u8>, n: nat) -> Option<Result<Seq<u8>, MeshError>>
    decreases n,
{
    if n == 0 {
        Some(Ok(c))
    } else {
        match primitives_m(c, (n - 1) as nat) {
            Some(Ok(s)) => match primitive_run(s) {
                None => None,
                Some(Err(e)) => Some(Err(e)),
                Some(Ok(m)) => Some(Ok(m.rest)),
            },
            other => other,
        }
    }
}

proof fn lemma_materials_stays(c: Seq<u8>, j: nat, n: nat)
    requires
        j <= n,
        materials_m(c, j) is Err,
    ensures
        materials_m(c, n) == materials_m(c, j),
    decreases n - j,
{
    if j < n {
        lemma_materials_stays(c, j, (n - 1) as nat);
    }
}

proof fn lemma_primitives_stays(c: Seq<u8>, j: nat, n: nat)
    requires
        j <= n,
        !(primitives_m(c, j) matches Some(Ok(_))),
    ensures
        primitives_m(c, n) == primitives_m(c, j),
    decreases n - j,
{
    if j < n {
        lemma_primitives_stays(c, j, (n - 1) as nat);
    }
}

/// Whether `m` is the material at the front of `s`.
pub open spec fn material_at(m: Material, s: Seq<u8>) -> bool {
    material_outcome(s) is Ok && material_from(m, s)
}

/// Whether `p` is the primitive at the front of `s`.
pub open spec fn primitive_at(p: PrimitiveLayout, s: Seq<u8>) -> bool {
    primitive_run(s) matches Some(Ok(m)) && layout_from(p, s, m)
}

/// Reads `n` materials (see [`materials_m`]).
fn read_materials(i: &mut &[u8], n: u32) -> (r: Result<Vec<Material>, MeshError>)
    ensures
        match materials_m(old(i)@, n as nat) {
            Ok(s) => r matches Ok(v) && v@.len() == n && (forall|j: int|
                0 <= j < n ==> material_at(#[trigger] v@[j], materials_m(old(i)@, j as nat)->Ok_0))
                && final(i)@ == s,
            Err(e) => r == Err::<Vec<Material>, MeshError>(e),
        },
{
    let ghost c = i@;
    let mut v: Vec<Material> = Vec::new();
    let mut k: u32 = 0;
    while k < n
        invariant
            c == old(i)@,
            k <= n,
            v@.len() == k,
            materials_m(c, k as nat) == Ok::<Seq<u8>, MeshError>(i@),
            forall|j: int| 0 <= j < k ==> material_at(#[trigger] v@[j], materials_m(c, j as nat)->Ok_0),
        decreases n - k,
    {
        match Material::parse(i) {
            Ok(m) => {
                v.push(m);
                k += 1;
                assert(material_at(v@[k - 1], materials_m(c, (k - 1) as nat)->Ok_0));
            },
            Err(e) => {
                proof {
                    lemma_materials_stays(c, (k + 1) as nat, n as nat);
                }
                return Err(e);
            },
        }
    }
    Ok(v)
}

/// Reads `n` primitives (see [`primitives_m`]).
fn read_primitives(i: &mut &[u8], n: u32) -> (r: Option<Result<Vec<PrimitiveLayout>, MeshError>>)
    ensures
        match primitives_m(old(i)@, n as nat) {
            Some(Ok(s)) => r matches Some(Ok(v)) && v@.len() == n && (forall|j: int|
                0 <= j < n ==> primitive_at(#[trigger] v@[j], primitives_m(old(i)@, j as nat)->Some_0->Ok_0))
                && final(i)@ == s,
            Some(Err(e)) => r == Some(Err::<Vec<PrimitiveLayout>, MeshError>(e)),
            None => r is None,
        },
{
    let ghost c = i@;
    let mut v: Vec<PrimitiveLayout> = Vec::new();
    let mut k: u32 = 0;
    while k < n
        invariant
            c == old(i)@,
            k <= n,
            v@.len() == k,
            primitives_m(c, k as nat) == Some(Ok::<Seq<u8>, MeshError>(i@)),
            forall|j: int| 0 <= j < k ==> primitive_at(#[trigger] v@[j], primitives_m(c, j as nat)->Some_0->Ok_0),
        decreases n - k,
    {
        match parse_primitive_checked(i) {
            Some(Ok(p)) => {
                v.push(p);
                k += 1;
                assert(primitive_at(v@[k - 1], primitives_m(c, (k - 1) as nat)->Some_0->Ok_0));
            },
            Some(Err(e)) => {
                proof {
                    lemma_primitives_stays(c, (k + 1) as nat, n as nat);
                }
                return Some(Err(e));
            },
            None => {
                proof {
                    lemma_primitives_stays(c, (k + 1) as nat, n as nat);
                }
                return None;
            },
        }
    }
    Some(Ok(v))
}

/// A mesh with its floating-point values kept as their bits and its record
/// sections as their words.
#[derive(Debug, Clone)]
pub struct MeshLayout {
    pub name: String,
    pub animated: bool,
    /// The bits of the bounding sphere's centre and radius.
    pub bounding_sphere: Vec<u32>,
    /// The bits of the bounding box's corners, the least first.
    pub bounding_box: Vec<u32>,
    /// Five words a helper point: bank id, three coordinate bits, bone
    /// index (an `i32`).
    pub helper_points: Vec<u32>,
    /// Fourteen words a helper dummy: bank id, twelve bits of a 3x4
    /// matrix, bone index (an `i32`).
    pub helper_dummies: Vec<u32>,
    pub helper_point_names: Vec<u8>,
    pub helper_dummy_names: Vec<u8>,
    /// Fifteen words a bone: name checksum, parent and original child
    /// count (two `i32`), twelve bits of a 3x4 matrix.
    pub bones: Vec<u32>,
    /// Twelve words a keyframe: the bits of rotation, translation and
    /// scale, four each.
    pub bone_keyframes: Vec<u32>,
    /// Sixteen words a bone: the bits of a 4x4 matrix.
    pub bone_transforms: Vec<u32>,
    pub bone_name_indices: Vec<u16>,
    pub bone_names: Vec<u8>,
    pub cloth: u8,
    /// The bits of the mesh's 3x4 transform.
    pub transform_matrix: Vec<u32>,
    pub materials: Vec<Material>,
    pub primitives: Vec<PrimitiveLayout>,
}

/// Where the parts of a mesh start, and what its sections hold.
pub struct MeshMarks {
    /// The input from the animated flag on: the flag, the bounding sphere
    /// and box, the helper counts and the size of the helper names.
    pub fixed: Seq<u8>,
    pub helper_points: Seq<u32>,
    pub helper_dummies: Seq<u32>,
    pub helper_point_names: Seq<u8>,
    pub helper_dummy_names: Seq<u8>,
    /// The input from the material count on: the material, primitive and
    /// bone counts, the size of the bone names and the cloth byte.
    pub counts: Seq<u8>,
    pub bone_name_indices: Seq<u16>,
    pub bone_names: Seq<u8>,
    pub bones: Seq<u32>,
    pub bone_keyframes: Seq<u32>,
    pub bone_transforms: Seq<u32>,
    /// The input from the mesh's transform on.
    pub matrix: Seq<u8>,
    /// The input from the materials on.
    pub materials: Seq<u8>,
    /// The input from the primitives on.
    pub primitives: Seq<u8>,
    /// The input after the mesh.
    pub rest: Seq<u8>,
}

/// The part of a mesh from its counts on (`c5`), after the parts that
/// [`mesh_run`] read; `None` where reading panics.
#[verifier::opaque]
pub open spec fn mesh_rest(
    c1: Seq<u8>,
    hp: Seq<u32>,
    hd: Seq<u32>,
    pn: Seq<u8>,
    dn: Seq<u8>,
    c5: Seq<u8>,
) -> Option<Result<MeshMarks, MeshError>> {
    let t = MeshError::Take(UnexpectedEnd);
    if c5.len() < 21 {
        Some(Err(t))
    } else {
        let mc = u32_le(c5);
        let pc = u32_le(c5.skip(4));
        let bc = u32_le(c5.skip(8));
        let bnl = u32_le(c5.skip(12));
        let c6 = c5.skip(21);
        if bc > 0 && 2 * (bc - 1) > usize::MAX {
            None
        } else {
            match bone_names_m(c6, bc, bnl).0 {
                Err(e) => Some(Err(e)),
                Ok((bi, bn)) => {
                    let c7 = c6.skip(bone_names_m(c6, bc, bnl).1);
                    match records_m(c7, bc as nat, 15) {
                        None => None,
                        Some((Err(e), _)) => Some(Err(e)),
                        Some((Ok(bones), q7)) => {
                            let c8 = c7.skip(q7);
                            match records_m(c8, bc as nat, 12) {
                                None => None,
                                Some((Err(e), _)) => Some(Err(e)),
                                Some((Ok(keys), q8)) => {
                                    let c9 = c8.skip(q8);
                                    match records_m(c9, bc as nat, 16) {
                                        None => None,
                                        Some((Err(e), _)) => Some(Err(e)),
                                        Some((Ok(tf), q9)) => {
                                            let c10 = c9.skip(q9);
                                            if c10.len() < 48 {
                                                Some(Err(t))
                                            } else {
                                                let c11 = c10.skip(48);
                                                match materials_m(c11, mc as nat) {
                                                    Err(e) => Some(Err(e)),
                                                    Ok(c12) => match primitives_m(c12, pc as nat) {
                                                        None => None,
                                                        Some(Err(e)) => Some(Err(e)),
                                                        Some(Ok(rest)) => Some(
                                                            Ok(
                                                                MeshMarks {
                                                                    fixed: c1,
                                                                    helper_points: hp,
                                                                    helper_dummies: hd,
                                                                    helper_point_names: pn,
                                                                    helper_dummy_names: dn,
                                                                    counts: c5,
                                                                    bone_name_indices: bi,
                                                                    bone_names: bn,
                                                                    bones,
                                                                    bone_keyframes: keys,
                                                                    bone_transforms: tf,
                                                                    matrix: c10,
                                                                    materials: c11,
                                                                    primitives: c12,
                                                                    rest,
                                                                },
                                                            ),
                                                        ),
                                                    },
                                                }
                                            }
                                        },
                                    }
                                },
                            }
                        },
                    }
                },
            }
        }
    }
}

/// Reading a mesh at the front of `b`: a null-terminated name; the animated
/// flag byte, the bounding sphere (four words) and box (six), the helper
/// point and dummy counts (two `u16`), the size of the helper names (a
/// `u32`) and two bytes of padding; the helper points (five words each) and
/// dummies (fourteen) and their names; then [`mesh_rest`]: the material,
/// primitive and bone counts and the size of the bone names (four `u32`),
/// the cloth byte and four unused bytes; the bone names, the bones (fifteen
/// words each), their keyframes (twelve) and transforms (sixteen); the
/// mesh's transform (twelve words); the materials and the primitives.
/// `None` where reading panics.
pub open spec fn mesh_run(b: Seq<u8>) -> Option<Result<MeshMarks, MeshError>> {
    let t = MeshError::Take(UnexpectedEnd);
    match name_m(b).0 {
        Err(e) => Some(Err(e)),
        Ok(_) => {
            let c1 = b.skip(name_m(b).1);
            if c1.len() < 51 {
                Some(Err(t))
            } else {
                let c2 = c1.skip(51);
                match records_m(c2, u16_le(c1.skip(41)) as nat, 5) {
                    None => None,
                    Some((Err(e), _)) => Some(Err(e)),
                    Some((Ok(hp), q2)) => {
                        let c3 = c2.skip(q2);
                        match records_m(c3, u16_le(c1.skip(43)) as nat, 14) {
                            None => None,
                            Some((Err(e), _)) => Some(Err(e)),
                            Some((Ok(hd), q3)) => {
                                let c4 = c3.skip(q3);
                                let size = u32_le(c1.skip(45));
                                match helper_names_m(c4, size).0 {
                                    Err(e) => Some(Err(e)),
                                    Ok((pn, dn)) => mesh_rest(c1, hp, hd, pn, dn, c4.skip(helper_names_m(c4, size).1)),
                                }
                            },
                        }
                    },
                }
            }
        },
    }
}

/// The inputs on which reading a mesh does not panic.
pub open spec fn mesh_fits(b: Seq<u8>) -> bool {
    mesh_run(b) is Some
}

/// The mesh at the front of `b`, or the error met reading it, where reading
/// it does not panic.
pub open spec fn mesh_m(b: Seq<u8>) -> Result<MeshMarks, MeshError> {
    mesh_run(b)->Some_0
}

/// Whether `l` holds the mesh at the front of `b`, whose parts `m` marks.
pub open spec fn mesh_from(l: MeshLayout, b: Seq<u8>, m: MeshMarks) -> bool {
    &&& name_m(b).0 == Ok::<Seq<u8>, MeshError>(encode_utf8(l.name@))
    &&& l.animated == (m.fixed[0] != 0)
    &&& l.bounding_sphere@ == u32s_at(m.fixed, 1, 4)
    &&& l.bounding_box@ == u32s_at(m.fixed, 17, 6)
    &&& l.helper_points@ == m.helper_points
    &&& l.helper_dummies@ == m.helper_dummies
    &&& l.helper_point_names@ == m.helper_point_names
    &&& l.helper_dummy_names@ == m.helper_dummy_names
    &&& l.bone_name_indices@ == m.bone_name_indices
    &&& l.bone_names@ == m.bone_names
    &&& l.bones@ == m.bones
    &&& l.bone_keyframes@ == m.bone_keyframes
    &&& l.bone_transforms@ == m.bone_transforms
    &&& l.cloth == m.counts[16]
    &&& l.transform_matrix@ == u32s_at(m.matrix, 0, 12)
    &&& l.materials@.len() == u32_le(m.counts)
    &&& forall|j: int|
        0 <= j < l.materials@.len() ==> material_at(#[trigger] l.materials@[j], materials_m(m.materials, j as nat)->Ok_0)
    &&& l.primitives@.len() == u32_le(m.counts.skip(4))
    &&& forall|j: int|
        0 <= j < l.primitives@.len() ==> primitive_at(
            #[trigger] l.primitives@[j],
            primitives_m(m.primitives, j as nat)->Some_0->Ok_0,
        )
}

/// Copies `n` words of `v` from `from` on.
fn words_of(v: &Vec<u32>, from: usize, n: usize) -> (r: Vec<u32>)
    requires
        from + n <= v.len(),
    ensures
        r@ == v@.subrange(from as int, from + n),
{
    let mut out: Vec<u32> = Vec::new();
    let mut k: usize = 0;
    while k < n
        invariant
            from + n <= v.len(),
            k <= n,
            out@ == v@.subrange(from as int, from + k),
        decreases n - k,
    {
        out.push(v[from + k]);
        k += 1;
        assert(out@ =~= v@.subrange(from as int, from + k));
    }
    out
}

/// The part of a mesh from its counts on (see [`mesh_rest`]).
#[verifier::rlimit(60)]
#[verifier::spinoff_prover]
fn read_mesh_rest(
    i: &mut &[u8],
    name: String,
    fixed: Vec<u32>,
    animated: bool,
    helper_points: Vec<u32>,
    helper_dummies: Vec<u32>,
    helper_point_names: Vec<u8>,
    helper_dummy_names: Vec<u8>,
    Ghost(c1): Ghost<Seq<u8>>,
) -> (r: Option<Result<MeshLayout, MeshError>>)
    requires
        c1.len() >= 51,
        fixed@ == u32s_at(c1, 1, 10),
        animated == (c1[0] != 0),
    ensures
        match mesh_rest(c1, helper_points@, helper_dummies@, helper_point_names@, helper_dummy_names@, old(i)@) {
            None => r is None,
            Some(Err(e)) => r == Some(Err::<MeshLayout, MeshError>(e)),
            Some(Ok(m)) => r matches Some(Ok(l)) && l.name == name && l.animated == animated && l.bounding_sphere@
                == fixed@.subrange(0, 4) && l.bounding_box@ == fixed@.subrange(4, 10) && l.helper_points
                == helper_points && l.helper_dummies == helper_dummies && l.helper_point_names
                == helper_point_names && l.helper_dummy_names == helper_dummy_names && m.fixed == c1
                && m.helper_points == helper_points@ && m.helper_dummies == helper_dummies@ && m.helper_point_names
                == helper_point_names@ && m.helper_dummy_names == helper_dummy_names@ && mesh_from_rest(l, m)
                && final(i)@ == m.rest,
        },
{
    reveal(mesh_rest);
    let ghost c5 = i@;
    let t = MeshError::Take(UnexpectedEnd);
    let counts = match read_u32s(i, 4) {
        Ok(v) => v,
        Err(_) => {
            return Some(Err(t));
        },
    };
    let cloth = match take_u8(i) {
        Ok(v) => v,
        Err(_) => {
            return Some(Err(t));
        },
    };
    match take_u16(i) {
        Ok(_) => {},
        Err(_) => {
            return Some(Err(t));
        },
    }
    match take_u16(i) {
        Ok(_) => {},
        Err(_) => {
            return Some(Err(t));
        },
    }
    let ghost c6 = i@;
    assert(c6 == c5.skip(21));
    assert(cloth == c5[16]);
    let material_count = counts[0];
    let primitive_count = counts[1];
    let bone_count = counts[2];
    let bone_names_len = counts[3];
    assert(material_count == u32_le(c5) && primitive_count == u32_le(c5.skip(4)) && bone_count == u32_le(
        c5.skip(8),
    ) && bone_names_len == u32_le(c5.skip(12)));
    if bone_count > 0 && (bone_count - 1) as usize > usize::MAX / 2 {
        return None;
    }
    let (bone_name_indices, bone_names) = match decode_bone_names(i, bone_count, bone_names_len) {
        Ok(x) => x,
        Err(e) => {
            return Some(Err(e));
        },
    };
    let bones = match read_records(i, bone_count, 15) {
        Some(Ok(v)) => v,
        Some(Err(e)) => {
            return Some(Err(e));
        },
        None => {
            return None;
        },
    };
    let bone_keyframes = match read_records(i, bone_count, 12) {
        Some(Ok(v)) => v,
        Some(Err(e)) => {
            return Some(Err(e));
        },
        None => {
            return None;
        },
    };
    let bone_transforms = match read_records(i, bone_count, 16) {
        Some(Ok(v)) => v,
        Some(Err(e)) => {
            return Some(Err(e));
        },
        None => {
            return None;
        },
    };
    let ghost c10 = i@;
    let transform_matrix = match read_u32s(i, 12) {
        Ok(v) => v,
        Err(_) => {
            return Some(Err(t));
        },
    };
    assert(transform_matrix@ =~= u32s_at(c10, 0, 12));
    let materials = match read_materials(i, material_count) {
        Ok(v) => v,
        Err(e) => {
            return Some(Err(e));
        },
    };
    let primitives = match read_primitives(i, primitive_count) {
        Some(Ok(v)) => v,
        Some(Err(e)) => {
            return Some(Err(e));
        },
        None => {
            return None;
        },
    };
    let bounding_sphere = words_of(&fixed, 0, 4);
    let bounding_box = words_of(&fixed, 4, 6);
    Some(
        Ok(
            MeshLayout {
                name,
                animated,
                bounding_sphere,
                bounding_box,
                helper_points,
                helper_dummies,
                helper_point_names,
                helper_dummy_names,
                bones,
                bone_keyframes,
                bone_transforms,
                bone_name_indices,
                bone_names,
                cloth,
                transform_matrix,
                materials,
                primitives,
            },
        ),
    )
}

/// What [`mesh_from`] says of the parts of a mesh from its counts on.
pub open spec fn mesh_from_rest(l: MeshLayout, m: MeshMarks) -> bool {
    &&& l.bone_name_indices@ == m.bone_name_indices
    &&& l.bone_names@ == m.bone_names
    &&& l.bones@ == m.bones
    &&& l.bone_keyframes@ == m.bone_keyframes
    &&& l.bone_transforms@ == m.bone_transforms
    &&& l.cloth == m.counts[16]
    &&& l.transform_matrix@ == u32s_at(m.matrix, 0, 12)
    &&& l.materials@.len() == u32_le(m.counts)
    &&& forall|j: int|
        0 <= j < l.materials@.len() ==> material_at(#[trigger] l.materials@[j], materials_m(m.materials, j as nat)->Ok_0)
    &&& l.primitives@.len() == u32_le(m.counts.skip(4))
    &&& forall|j: int|
        0 <= j < l.primitives@.len() ==> primitive_at(
            #[trigger] l.primitives@[j],
            primitives_m(m.primitives, j as nat)->Some_0->Ok_0,
        )
}

/// Reads a mesh (see [`mesh_run`]): every section of it, its materials and
/// its primitives. `None` where reading it panics: a section size that
/// overflows a machine word, or a primitive that does (see
/// [`crate::mesh::primitive::parse_primitive_checked`]).
#[verifier::rlimit(60)]
#[verifier::spinoff_prover]
pub fn decode_mesh_checked(i: &mut &[u8]) -> (r: Option<Result<MeshLayout, MeshError>>)
    ensures
        match mesh_run(old(i)@) {
            None => r is None,
            Some(Err(e)) => r == Some(Err::<MeshLayout, MeshError>(e)),
            Some(Ok(m)) => r matches Some(Ok(l)) && mesh_from(l, old(i)@, m) && final(i)@ == m.rest,
        },
{
    let ghost b = i@;
    let t = MeshError::Take(UnexpectedEnd);
    let name = match read_str_nul(i) {
        Ok(n) => n,
        Err(e) => {
            return Some(Err(e));
        },
    };
    let ghost c1 = i@;
    let flag = match take_u8(i) {
        Ok(v) => v,
        Err(_) => {
            return Some(Err(t));
        },
    };
    let fixed = match read_u32s(i, 10) {
        Ok(v) => v,
        Err(_) => {
            return Some(Err(t));
        },
    };
    let point_count = match take_u16(i) {
        Ok(v) => v,
        Err(_) => {
            return Some(Err(t));
        },
    };
    let dummy_count = match take_u16(i) {
        Ok(v) => v,
        Err(_) => {
            return Some(Err(t));
        },
    };
    let names_size = match take_u32(i) {
        Ok(v) => v,
        Err(_) => {
            return Some(Err(t));
        },
    };
    match take_u16(i) {
        Ok(_) => {},
        Err(_) => {
            return Some(Err(t));
        },
    }
    proof {
        assert(c1.skip(1).skip(40) =~= c1.skip(41));
        assert(c1.skip(41).skip(2) =~= c1.skip(43));
        assert(c1.skip(43).skip(2) =~= c1.skip(45));
        assert(c1.skip(45).skip(4) =~= c1.skip(49));
        assert(c1.skip(49).skip(2) =~= c1.skip(51));
        assert(fixed@ =~= u32s_at(c1, 1, 10));
    }
    let helper_points = match read_records(i, point_count as u32, 5) {
        Some(Ok(v)) => v,
        Some(Err(e)) => {
            return Some(Err(e));
        },
        None => {
            return None;
        },
    };
    let helper_dummies = match read_records(i, dummy_count as u32, 14) {
        Some(Ok(v)) => v,
        Some(Err(e)) => {
            return Some(Err(e));
        },
        None => {
            return None;
        },
    };
    let (helper_point_names, helper_dummy_names) = match decode_helper_names(i, names_size) {
        Ok(x) => x,
        Err(e) => {
            return Some(Err(e));
        },
    };
    let r = read_mesh_rest(
        i,
        name,
        fixed,
        flag != 0,
        helper_points,
        helper_dummies,
        helper_point_names,
        helper_dummy_names,
        Ghost(c1),
    );
    proof {
        if r is Some && r->Some_0 is Ok {
            assert(r->Some_0->Ok_0.bounding_sphere@ =~= u32s_at(c1, 1, 4));
            assert(r->Some_0->Ok_0.bounding_box@ =~= u32s_at(c1, 17, 6));
        }
    }
    r
}

/// Reads a mesh (see [`mesh_m`]), on an input on which reading does not
/// panic (see [`decode_mesh_checked`]).
pub fn decode_mesh_layout(i: &mut &[u8]) -> (r: Result<MeshLayout, MeshError>)
    requires
        mesh_fits(old(i)@),
    ensures
        match mesh_m(old(i)@) {
            Ok(m) => r matches Ok(l) && mesh_from(l, old(i)@, m) && final(i)@ == m.rest,
            Err(e) => r == Err::<MeshLayout, MeshError>(e),
        },
{
    match decode_mesh_checked(i) {
        Some(r) => r,
        None => {
            assert(false);
            Err(MeshError::Take(UnexpectedEnd))
        },
    }
}

} // verus!
