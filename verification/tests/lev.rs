use fable_data::lev::{LevError, LevHeader, LevNavigationLeaf, LevSoundCell};

fn put_u32(b: &mut [u8], at: usize, v: u32) {
    b[at..at + 4].copy_from_slice(&v.to_le_bytes());
}

fn header_bytes(themes: &[&str]) -> Vec<u8> {
    let mut b = vec![0u8; 67643];
    b[4..6].copy_from_slice(&7u16.to_le_bytes());
    put_u32(&mut b, 13, 11);
    put_u32(&mut b, 21, 22);
    put_u32(&mut b, 26, 3);
    b[30..38].copy_from_slice(&99u64.to_le_bytes());
    put_u32(&mut b, 38, 128);
    put_u32(&mut b, 42, 64);
    put_u32(&mut b, 33839, 5);
    put_u32(&mut b, 33843, themes.len() as u32 + 1);
    put_u32(&mut b, 67639, 0xdeadbeef);
    for t in themes {
        b.extend_from_slice(&(t.len() as u32).to_le_bytes());
        b.extend_from_slice(t.as_bytes());
    }
    b
}

#[test]
fn lev_header_fields_and_themes() {
    let mut data = header_bytes(&["Wind", "Sea"]);
    data.extend_from_slice(&[1, 2, 3]);
    let mut i: &[u8] = &data;
    let h = LevHeader::parse(&mut i).unwrap();
    assert_eq!(h.version, 7);
    assert_eq!(h.obsolete_offset, 11);
    assert_eq!(h.navigation_offset, 22);
    assert_eq!(h.map_version, 3);
    assert_eq!(h.unique_id_count, 99);
    assert_eq!((h.width, h.height), (128, 64));
    assert_eq!(h.ambient_sound_version, 5);
    assert_eq!(h.checksum, 0xdeadbeef);
    assert_eq!(h.sound_themes, vec!["Wind".to_string(), "Sea".to_string()]);
    assert_eq!(i, &[1, 2, 3]);
}

#[test]
fn lev_header_errors() {
    let mut i: &[u8] = &[0, 0, 0];
    assert!(matches!(LevHeader::parse(&mut i), Err(LevError::Take(_))));
    let short = vec![0u8; 100];
    let mut i: &[u8] = &short;
    assert!(matches!(LevHeader::parse(&mut i), Err(LevError::Bytes(_))));
    let mut bad = header_bytes(&[]);
    put_u32(&mut bad, 33843, 2);
    bad.extend_from_slice(&2u32.to_le_bytes());
    bad.extend_from_slice(&[0xff, 0xfe]);
    let mut i: &[u8] = &bad;
    assert!(matches!(LevHeader::parse(&mut i), Err(LevError::SoundThemeUtf8)));
}

#[test]
fn sound_cell_parse() {
    let data = [12u8, 0, 0, 0, 1, 2, 3, 4, 5, 6, 7, 99, 100];
    let mut i: &[u8] = &data;
    let c = LevSoundCell::parse(&mut i).unwrap();
    assert_eq!(c.size, 12);
    assert_eq!(c.version, 1);
    assert_eq!(c.sound_theme, (2, 3, 4));
    assert_eq!(c.sound_theme_strength, (5, 6));
    assert_eq!(c.sound_index, 7);
    assert_eq!(i, &[100]);
    let small = [5u8, 0, 0, 0, 1, 2, 3, 4, 5, 6, 7];
    let mut i: &[u8] = &small;
    assert!(matches!(
        LevSoundCell::parse(&mut i),
        Err(LevError::CellSizeUnderflow { size: 5, consumed: 11 })
    ));
}

#[test]
fn navigation_leaf_parse() {
    let data = [9u8, 0, 0, 0, 3, 2, 0, 0, 0, 10, 0, 0, 0, 20, 0, 0, 0, 1];
    let mut i: &[u8] = &data;
    let l = LevNavigationLeaf::parse(&mut i).unwrap();
    assert_eq!(l.region_id, 9);
    assert_eq!(l.preferability, 3);
    assert_eq!(l.neighbours, vec![10, 20]);
    assert_eq!(i, &[1]);
    let cut = [9u8, 0, 0, 0, 3, 2, 0, 0, 0, 10, 0, 0, 0, 20];
    let mut i: &[u8] = &cut;
    assert!(LevNavigationLeaf::parse(&mut i).is_err());
    assert_eq!(i, &[20]);
}
