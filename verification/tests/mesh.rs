use fable_data::bytes::UnexpectedEnd;
use fable_data::mesh::{
    decode_bone_names, decode_helper_names, decompress_section, expand_block, read_str_nul, Material,
    MeshError, PrimitiveAnimatedBlock, PrimitiveBlock, PrimitiveStaticBlock,
};
use fable_data::mesh::cloth::{ClothPrimitive, ParticleConstraint, Particles};
use fable_data::mesh::layout::{decode_mesh_checked, decode_mesh_layout};
use fable_data::mesh::primitive::{parse_primitive_checked, parse_primitive_layout, vertex_window_fits};
use fable_data::texture::LzoError;

// "hello, lzo world!" compressed by liblzo2's lzo1x_1.
const HELLO: [u8; 21] = [34, 104, 101, 108, 108, 111, 44, 32, 108, 122, 111, 32, 119, 111, 114, 108, 100, 33, 17, 0, 0];

const TAKE: MeshError = MeshError::Take(UnexpectedEnd);
const BYTES: MeshError = MeshError::Bytes(UnexpectedEnd);

fn u32_bytes(v: u32) -> [u8; 4] {
    v.to_le_bytes()
}

#[test]
fn raw_section_is_copied() {
    let data = [0u8, 0, 1, 2, 3, 4, 5];
    let mut i: &[u8] = &data;
    assert_eq!(decompress_section(&mut i, 4), Ok(vec![1, 2, 3, 4]));
    assert_eq!(i, &[5u8][..]);
}

#[test]
fn compressed_section_then_raw_tail() {
    let mut data = vec![21u8, 0];
    data.extend_from_slice(&HELLO);
    data.extend_from_slice(&[7, 8, 9]);
    let mut i: &[u8] = &data;
    let out = decompress_section(&mut i, 19).unwrap();
    assert_eq!(&out[..17], b"hello, lzo world!");
    assert_eq!(&out[17..], &[7u8, 8][..]);
    assert_eq!(i, &[9u8][..]);
}

#[test]
fn long_length_marker() {
    let mut data = vec![0xffu8, 0xff];
    data.extend_from_slice(&u32_bytes(21));
    data.extend_from_slice(&HELLO);
    let mut i: &[u8] = &data;
    let out = decompress_section(&mut i, 17).unwrap();
    assert_eq!(out, b"hello, lzo world!".to_vec());
    assert!(i.is_empty());
}

#[test]
fn section_errors() {
    let mut i: &[u8] = &[1u8];
    assert_eq!(decompress_section(&mut i, 4), Err(TAKE));
    let mut i: &[u8] = &[0xffu8, 0xff, 1];
    assert_eq!(decompress_section(&mut i, 4), Err(TAKE));
    let mut i: &[u8] = &[5u8, 0, 1, 2];
    assert_eq!(decompress_section(&mut i, 4), Err(BYTES));
    let mut i: &[u8] = &[0u8, 0, 1, 2];
    assert_eq!(decompress_section(&mut i, 4), Err(BYTES));
    let mut i: &[u8] = &[2u8, 0, 1, 2];
    assert_eq!(decompress_section(&mut i, 4), Err(MeshError::Decompress(LzoError::InputOverrun)));
}

#[test]
fn names_end_at_nul() {
    let mut i: &[u8] = b"bone\0rest";
    assert_eq!(read_str_nul(&mut i), Ok("bone".to_string()));
    assert_eq!(i, &b"rest"[..]);
    let mut i: &[u8] = b"\0";
    assert_eq!(read_str_nul(&mut i), Ok(String::new()));
    assert!(i.is_empty());
}

#[test]
fn name_errors() {
    let mut i: &[u8] = b"open";
    assert_eq!(read_str_nul(&mut i), Err(BYTES));
    assert_eq!(i, &b"open"[..]);
    let mut i: &[u8] = &[0xffu8, 0xfe, 0, 1];
    assert_eq!(read_str_nul(&mut i), Err(MeshError::Utf8));
    assert_eq!(i, &[1u8][..]);
}

fn material_bytes() -> Vec<u8> {
    let mut b = Vec::new();
    b.extend_from_slice(&u32_bytes(9));
    b.extend_from_slice(b"stone\0");
    for v in 1..=7u32 {
        b.extend_from_slice(&u32_bytes(v * 10));
    }
    b.extend_from_slice(&[1, 0, 2]);
    b.extend_from_slice(&[3, 1]);
    b
}

#[test]
fn material_fields() {
    let mut b = material_bytes();
    b.push(0xaa);
    let mut i: &[u8] = &b;
    let m = Material::parse(&mut i).unwrap();
    assert_eq!(
        m,
        Material {
            id: 9,
            name: "stone".to_string(),
            decal_id: 10,
            base_texture_id: 20,
            bumpmap_texture_id: 30,
            reflect_texture_id: 40,
            illumination_texture_id: 50,
            map_flags: 60,
            self_illumination: 70,
            two_sided: true,
            transparent: false,
            boolean_alpha: true,
            degenerate_triangles: 0x0103,
        }
    );
    assert_eq!(i, &[0xaau8][..]);
}

#[test]
fn truncated_material() {
    let b = material_bytes();
    let mut i: &[u8] = &b[..b.len() - 1];
    assert_eq!(Material::parse(&mut i), Err(TAKE));
    assert_eq!(i.len(), 1);
    let mut i: &[u8] = &b[..3];
    assert_eq!(Material::parse(&mut i), Err(TAKE));
    let mut i: &[u8] = &b[..7];
    assert_eq!(Material::parse(&mut i), Err(BYTES));
}

fn block_bytes(count: u32, start: u32, strip: u8) -> Vec<u8> {
    let mut b = Vec::new();
    b.extend_from_slice(&u32_bytes(count));
    b.extend_from_slice(&u32_bytes(start));
    b.extend_from_slice(&[strip, 5, 1]);
    b
}

#[test]
fn primitive_blocks() {
    let mut b = block_bytes(2, 3, 1);
    b.extend_from_slice(&u32_bytes(4));
    let mut i: &[u8] = &b;
    let s = PrimitiveStaticBlock::parse(&mut i).unwrap();
    assert_eq!(
        s,
        PrimitiveStaticBlock {
            base: PrimitiveBlock {
                primitive_count: 2,
                start_index: 3,
                is_strip: true,
                change_flags: 5,
                degenerate_triangles: true,
            },
            material_index: 4,
        }
    );
    assert!(i.is_empty());
    let mut i: &[u8] = &b[..10];
    assert_eq!(PrimitiveBlock::parse(&mut i), Err(TAKE));
    assert!(i.is_empty());
    let mut i: &[u8] = &b[..6];
    assert_eq!(PrimitiveBlock::parse(&mut i), Err(TAKE));
    assert_eq!(i.len(), 2);
    let mut i: &[u8] = &b[..13];
    assert_eq!(PrimitiveStaticBlock::parse(&mut i), Err(TAKE));
    assert_eq!(i.len(), 2);
}

#[test]
fn animated_block_groups() {
    let mut b = block_bytes(1, 0, 0);
    b.extend_from_slice(&u32_bytes(12));
    b.extend_from_slice(&[2, 0, 1, 3, 7, 8, 9, 0xee]);
    let mut i: &[u8] = &b;
    let a = PrimitiveAnimatedBlock::parse(&mut i).unwrap();
    assert_eq!(a.vertex_count, 12);
    assert_eq!(a.bones_per_vertex, 2);
    assert!(a.paletted_flag);
    assert_eq!(a.groups, vec![7, 8, 9]);
    assert!(!a.base.is_strip);
    assert_eq!(i, &[0xeeu8][..]);
    let mut i: &[u8] = &b[..21];
    assert_eq!(PrimitiveAnimatedBlock::parse(&mut i), Err(BYTES));
}

fn index_bytes(v: &[u16]) -> Vec<u8> {
    v.iter().flat_map(|x| x.to_le_bytes()).collect()
}

#[test]
fn list_triangles() {
    let data = index_bytes(&[1, 2, 3, 4, 5, 6, 7]);
    let block = PrimitiveBlock { primitive_count: 2, start_index: 0, is_strip: false, change_flags: 0, degenerate_triangles: false };
    let mut view: &[u8] = &data;
    let mut indices = vec![0];
    assert_eq!(expand_block(&mut view, &block, &mut indices), Ok(()));
    assert_eq!(indices, vec![0, 1, 2, 3, 4, 5, 6]);
    assert_eq!(view, &index_bytes(&[7])[..]);
}

#[test]
fn strip_triangles_overlap() {
    let data = index_bytes(&[1, 2, 3, 4]);
    let block = PrimitiveBlock { primitive_count: 2, start_index: 0, is_strip: true, change_flags: 0, degenerate_triangles: false };
    let mut view: &[u8] = &data;
    let mut indices = Vec::new();
    assert_eq!(expand_block(&mut view, &block, &mut indices), Ok(()));
    assert_eq!(indices, vec![1, 2, 3, 2, 3, 4]);
    assert_eq!(view, &index_bytes(&[3, 4])[..]);
}

#[test]
fn short_index_buffer() {
    let data = index_bytes(&[1, 2, 3, 4]);
    let block = PrimitiveBlock { primitive_count: 2, start_index: 0, is_strip: false, change_flags: 0, degenerate_triangles: false };
    let mut view: &[u8] = &data;
    let mut indices = Vec::new();
    assert_eq!(expand_block(&mut view, &block, &mut indices), Err(TAKE));
    assert_eq!(indices, vec![1, 2, 3]);
    assert!(view.is_empty());
    let strip = PrimitiveBlock { is_strip: true, primitive_count: 3, ..block };
    let mut view: &[u8] = &data;
    let mut indices = Vec::new();
    assert_eq!(expand_block(&mut view, &strip, &mut indices), Err(TAKE));
    assert_eq!(indices, vec![1, 2, 3, 2, 3, 4]);
    assert_eq!(view, &index_bytes(&[4])[..]);
}

#[test]
fn helper_names_split() {
    // A raw section of 8 bytes: dummy names start at offset 5.
    let data = [0u8, 0, 5, 0, b'a', b'b', b'c', b'x', b'y', b'z', 0x77];
    let mut i: &[u8] = &data;
    let (points, dummies) = decode_helper_names(&mut i, 8).unwrap();
    assert_eq!(points, b"abc".to_vec());
    assert_eq!(dummies, b"xyz".to_vec());
    assert_eq!(i, &[0x77u8][..]);
    let mut i: &[u8] = &data;
    assert_eq!(decode_helper_names(&mut i, 0), Ok((Vec::new(), Vec::new())));
    assert_eq!(i.len(), data.len());
    // An offset past the section.
    let data = [0u8, 0, 9, 0, 1, 2, 3, 4];
    let mut i: &[u8] = &data;
    assert_eq!(decode_helper_names(&mut i, 6), Err(BYTES));
    // A section too short for the offset.
    let data = [0u8, 0, 9];
    let mut i: &[u8] = &data;
    assert_eq!(decode_helper_names(&mut i, 1), Err(TAKE));
}

#[test]
fn bone_names_sections() {
    // Three bones: two name indices, then four bytes of names.
    let data = [0u8, 0, 1, 0, 2, 1, 0, 0, b'h', b'i', 0, 0, 0x55];
    let mut i: &[u8] = &data;
    let (indices, names) = decode_bone_names(&mut i, 3, 4).unwrap();
    assert_eq!(indices, vec![1, 0x0102]);
    assert_eq!(names, vec![b'h', b'i', 0, 0]);
    assert_eq!(i, &[0x55u8][..]);
    let mut i: &[u8] = &data;
    assert_eq!(decode_bone_names(&mut i, 0, 4), Ok((Vec::new(), Vec::new())));
    assert_eq!(decode_bone_names(&mut i, 3, 0), Ok((Vec::new(), Vec::new())));
    let mut i: &[u8] = &data[..8];
    assert_eq!(decode_bone_names(&mut i, 3, 4), Err(BYTES));
    let mut i: &[u8] = &data[..1];
    assert_eq!(decode_bone_names(&mut i, 3, 4), Err(TAKE));
}

fn words(out: &mut Vec<u8>, ws: &[u32]) {
    for w in ws {
        out.extend_from_slice(&w.to_le_bytes());
    }
}

fn cloth_data() -> Vec<u8> {
    let mut d = Vec::new();
    words(&mut d, &[0, 52]);
    words(&mut d, &[0, 3, 0]);
    words(&mut d, &[2, 0, 16, 1, 2, 0x3f80_0000, 0x4000_0000]);
    words(&mut d, &[9, 0, 0]);
    // particles: three settings, one particle, then the trailing settings
    words(&mut d, &[10, 11, 12, 1, 1, 2, 3, 4, 5, 6]);
    d.extend_from_slice(&[1, 0]);
    words(&mut d, &[7]);
    d.push(1);
    words(&mut d, &[8]);
    words(&mut d, &[1]);
    for x in [1u16, 2, 3] {
        d.extend_from_slice(&x.to_le_bytes());
    }
    words(&mut d, &[1]);
    for x in [4u16, 5, 6, 7] {
        d.extend_from_slice(&x.to_le_bytes());
    }
    words(&mut d, &[1]);
    for x in [8u16, 9] {
        d.extend_from_slice(&x.to_le_bytes());
    }
    words(&mut d, &[1, 10, 11, 12, 1, 13, 14, 2, 0xffff_ffff, 2, 0, 0x3f80_0000]);
    d.push(1);
    words(&mut d, &[3, 1]);
    d.push(b'a');
    words(&mut d, &[1, 1]);
    d.push(b'b');
    words(&mut d, &[2, 1]);
    d.push(b'a');
    words(&mut d, &[3]);
    d
}

fn cloth_bytes(d: &[u8]) -> Vec<u8> {
    let mut b = Vec::new();
    words(&mut b, &[77, 5, d.len() as u32]);
    b.extend_from_slice(&[0, 0]);
    b.extend_from_slice(d);
    b
}

#[test]
fn cloth_primitive_fields() {
    let mut b = cloth_bytes(&cloth_data());
    b.push(0x99);
    let mut i: &[u8] = &b;
    let c = ClothPrimitive::parse(&mut i).unwrap();
    assert_eq!(i, &[0x99u8][..]);
    assert_eq!((c.cloth_id, c.material_id), (77, 5));
    assert_eq!(
        c.constraints,
        vec![
            ParticleConstraint::Repeat(3),
            ParticleConstraint::Distance { ids: [1, 2], distance: 0x3f80_0000, strength: 0x4000_0000 },
        ]
    );
    assert_eq!(
        c.particles,
        Particles {
            timestep: 10,
            timestep_changed: 11,
            timestep_multiplier: 12,
            positions: vec![[1, 2, 3]],
            sim_alphas: vec![4],
            gravity_strength: 5,
            wind_strength: 6,
            dragging_enabled: true,
            dragging_rotational: false,
            dragging_strength: 7,
            acceleration_enabled: true,
            global_damping: 8,
        }
    );
    assert_eq!(c.triangle_indices, vec![[1, 2, 3]]);
    assert_eq!(c.quad_indices, vec![[4, 5, 6, 7]]);
    assert_eq!(c.render_vertices, vec![[8, 9]]);
    assert_eq!(c.non_sim_positions, vec![[10, 11, 12]]);
    assert_eq!(c.indexed_texture_coords, vec![[13, 14]]);
    assert_eq!(c.particle_indices, vec![-1, 2]);
    assert!(c.vertex_indices.is_empty());
    assert_eq!(f32::from_bits(c.average_patch_size), 1.0);
    assert!(c.bezier_enabled);
    assert_eq!(c.export_particles, vec![("a".to_string(), 3), ("b".to_string(), 2)]);
}

#[test]
fn cloth_errors() {
    let d = cloth_data();
    // Cloth data cut inside the exports: the last particle runs out.
    let cut = cloth_bytes(&d[..d.len() - 2]);
    let mut i: &[u8] = &cut;
    assert_eq!(ClothPrimitive::parse(&mut i), Err(TAKE));
    // The constraint bytes run past the data.
    let mut short = d.clone();
    short[4..8].copy_from_slice(&5000u32.to_le_bytes());
    let mut i: &[u8] = &cloth_bytes(&short)[..];
    assert_eq!(ClothPrimitive::parse(&mut i), Err(BYTES));
    // A name that is not UTF-8.
    let mut bad = d.clone();
    let n = bad.len();
    bad[n - 5] = 0xff;
    let mut i: &[u8] = &cloth_bytes(&bad)[..];
    assert_eq!(ClothPrimitive::parse(&mut i), Err(MeshError::Utf8));
    let mut i: &[u8] = &[1, 2, 3];
    assert_eq!(ClothPrimitive::parse(&mut i), Err(TAKE));
}

/// A primitive with one static list block of one triangle, no animated
/// blocks, one vertex of `vertex_size` bytes, three indices and no cloth.
fn primitive_bytes(vertex_size: u32, start_index: u32) -> Vec<u8> {
    let words = [7u32, 0, 0x3f80_0000, 2, 3, 4, 5, 1, 0, 1, 1, 3, 0, 1, 0];
    let mut b = Vec::new();
    for w in words {
        b.extend_from_slice(&u32_bytes(w));
    }
    b.extend_from_slice(&block_bytes(1, start_index, 0));
    b.extend_from_slice(&u32_bytes(9));
    for w in [10u32, 11, 12, 13, 20, 21, 22, 23, vertex_size, 0] {
        b.extend_from_slice(&u32_bytes(w));
    }
    b.extend_from_slice(&[0, 0]);
    b.extend((0..vertex_size).map(|x| x as u8));
    b.extend_from_slice(&[0, 0]);
    b.extend_from_slice(&index_bytes(&[4, 5, 6]));
    b.extend_from_slice(&u32_bytes(0));
    b.push(0xee);
    b
}

#[test]
fn primitive_layout_reads_every_part() {
    let b = primitive_bytes(12, 0);
    let mut i: &[u8] = &b;
    let l = parse_primitive_layout(&mut i).unwrap();
    assert_eq!(i, &[0xeeu8][..]);
    assert_eq!(l.material_index, 7);
    assert_eq!(l.repeating_mesh_reps, 0);
    assert_eq!(l.bounding_sphere, vec![0x3f80_0000, 2, 3, 4]);
    assert_eq!(l.average_texture_stretch, 5);
    assert_eq!((l.vertex_count, l.triangle_count, l.index_count, l.init_flags), (1, 1, 3, 0));
    assert_eq!(l.static_blocks.len(), 1);
    assert_eq!(l.static_blocks[0].material_index, 9);
    assert_eq!(l.static_blocks[0].base.primitive_count, 1);
    assert!(l.animated_blocks.is_empty());
    assert_eq!(l.pos_scale, vec![10, 11, 12, 13]);
    assert_eq!(l.pos_bias, vec![20, 21, 22, 23]);
    assert_eq!(l.vertex_size, 12);
    assert_eq!(l.vertex_data, (0..12u8).collect::<Vec<u8>>());
    assert_eq!(l.indices, vec![4, 5, 6]);
    assert!(l.cloth_primitives.is_empty());
}

#[test]
fn primitive_vertex_too_small() {
    // A packed position, normal and texture coordinates need 12 bytes.
    let b = primitive_bytes(8, 0);
    let mut i: &[u8] = &b;
    assert_eq!(parse_primitive_layout(&mut i).err(), Some(TAKE));
}

#[test]
fn primitive_truncated() {
    let b = primitive_bytes(12, 0);
    let mut i: &[u8] = &b[..59];
    assert_eq!(parse_primitive_layout(&mut i).err(), Some(TAKE));
    // The cloth count is cut off.
    let mut i: &[u8] = &b[..b.len() - 3];
    assert_eq!(parse_primitive_layout(&mut i).err(), Some(TAKE));
    // The index section is cut off.
    let mut i: &[u8] = &b[..b.len() - 7];
    assert_eq!(parse_primitive_layout(&mut i).err(), Some(BYTES));
}

#[test]
fn primitive_block_outside_index_section() {
    // Six bytes of indices: a block may start at index 3 at most.
    let b = primitive_bytes(12, 4);
    let mut i: &[u8] = &b;
    assert!(parse_primitive_checked(&mut i).is_none());
    let b = primitive_bytes(12, 3);
    let mut i: &[u8] = &b;
    assert_eq!(parse_primitive_checked(&mut i).map(|r| r.err()), Some(Some(TAKE)));
    // An error met before the blocks are expanded comes first.
    let b = primitive_bytes(8, 4);
    let mut i: &[u8] = &b;
    assert_eq!(parse_primitive_checked(&mut i).map(|r| r.err()), Some(Some(TAKE)));
    let mut i: &[u8] = &[1, 2, 3];
    assert_eq!(parse_primitive_checked(&mut i).map(|r| r.err()), Some(Some(TAKE)));
}

#[test]
fn primitive_block_past_its_start() {
    // Starting at the last index leaves one index for a three-index triangle.
    let b = primitive_bytes(12, 2);
    let mut i: &[u8] = &b;
    assert_eq!(parse_primitive_layout(&mut i).err(), Some(TAKE));
}

#[test]
fn vertex_windows() {
    assert!(vertex_window_fits(12, false, false, 0));
    assert!(!vertex_window_fits(11, false, false, 0));
    // Flag 16 stores the position as three floats.
    assert!(!vertex_window_fits(12, false, false, 16));
    assert!(vertex_window_fits(20, false, false, 16));
    // Bone data is skipped whenever there is room for it, here leaving too little.
    assert!(!vertex_window_fits(12, false, true, 0));
    assert!(!vertex_window_fits(19, false, true, 0));
    assert!(vertex_window_fits(20, false, true, 0));
    // A repeating mesh stores floats throughout: 12 + 12 + 8 bytes.
    assert!(vertex_window_fits(32, true, false, 0));
    assert!(!vertex_window_fits(31, true, false, 0));
}

/// A mesh named "m" with one helper point, no dummies, one bone-less
/// skeleton, one material and one primitive.
fn mesh_bytes(bone_count: u32) -> Vec<u8> {
    let mut b = b"m\0".to_vec();
    b.push(1);
    for w in 100..110u32 {
        b.extend_from_slice(&u32_bytes(w));
    }
    b.extend_from_slice(&1u16.to_le_bytes());
    b.extend_from_slice(&0u16.to_le_bytes());
    b.extend_from_slice(&u32_bytes(0));
    b.extend_from_slice(&[0, 0]);
    // One helper point, stored raw: five words.
    b.extend_from_slice(&[0, 0]);
    for w in 1..=5u32 {
        b.extend_from_slice(&u32_bytes(w));
    }
    for w in [1u32, 1, bone_count, 0] {
        b.extend_from_slice(&u32_bytes(w));
    }
    b.push(2);
    b.extend_from_slice(&[0, 0, 0, 0]);
    for w in 200..212u32 {
        b.extend_from_slice(&u32_bytes(w));
    }
    b.extend_from_slice(&material_bytes());
    let p = primitive_bytes(12, 0);
    b.extend_from_slice(&p[..p.len() - 1]);
    b.push(0xee);
    b
}

#[test]
fn mesh_layout_reads_every_section() {
    let b = mesh_bytes(0);
    let mut i: &[u8] = &b;
    let m = decode_mesh_layout(&mut i).unwrap();
    assert_eq!(i, &[0xeeu8][..]);
    assert_eq!(m.name, "m");
    assert!(m.animated);
    assert_eq!(m.bounding_sphere, vec![100, 101, 102, 103]);
    assert_eq!(m.bounding_box, vec![104, 105, 106, 107, 108, 109]);
    assert_eq!(m.helper_points, vec![1, 2, 3, 4, 5]);
    assert!(m.helper_dummies.is_empty());
    assert!(m.helper_point_names.is_empty() && m.helper_dummy_names.is_empty());
    assert!(m.bones.is_empty() && m.bone_keyframes.is_empty() && m.bone_transforms.is_empty());
    assert_eq!(m.cloth, 2);
    assert_eq!(m.transform_matrix, (200..212).collect::<Vec<u32>>());
    assert_eq!(m.materials.len(), 1);
    assert_eq!(m.materials[0].name, "stone");
    assert_eq!(m.primitives.len(), 1);
    assert_eq!(m.primitives[0].indices, vec![4, 5, 6]);
}

#[test]
fn mesh_layout_errors() {
    let b = mesh_bytes(0);
    // No terminator on the name.
    let mut i: &[u8] = &b[..1];
    assert_eq!(decode_mesh_layout(&mut i).err(), Some(BYTES));
    // The fixed fields are cut off.
    let mut i: &[u8] = &b[..20];
    assert_eq!(decode_mesh_layout(&mut i).err(), Some(TAKE));
    // A bone whose sections are missing: the bone names are empty, the bone
    // section's length runs out.
    let b = mesh_bytes(1);
    let mut i: &[u8] = &b;
    assert!(decode_mesh_checked(&mut i).unwrap().is_err());
}
