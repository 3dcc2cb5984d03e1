use std::collections::BTreeMap;

use fable_data::def::enums::{ControllerType, TableExpansion};
use fable_data::def::wire::{
    DefIndex, DefString, NulTerminatedUtf16Error, NulTerminatedUtf8Error, PString, ParseWireError, VecMap, WStr,
    Wire,
};

fn round_trip<T: Wire + PartialEq + std::fmt::Debug>(value: T) {
    let mut buf = vec![0u8; value.wire_size()];
    let mut pos = 0usize;
    value.serialize(&mut buf, &mut pos).unwrap();
    assert_eq!(pos, buf.len(), "wire_size over-estimated");
    let mut cur = &buf[..];
    let parsed = T::parse(&mut cur).unwrap();
    assert!(cur.is_empty(), "parse under-consumed");
    assert_eq!(parsed, value);
}

#[test]
fn scalars_round_trip() {
    round_trip(-7i32);
    round_trip(0xdead_beefu32);
    round_trip(true);
    round_trip(false);
}

#[test]
fn strings_round_trip() {
    round_trip(String::from("ENG_ARIAL_24"));
    round_trip(String::new());
    round_trip(WStr::from("Data\\Video\\intro.wmv"));
    round_trip(WStr::default());
}

#[test]
fn containers_round_trip() {
    round_trip(vec![1i32, 2, 3]);
    round_trip(BTreeMap::from([(1u32, String::from("a")), (2, String::from("b"))]));
    round_trip(VecMap(vec![
        (String::from("MINIMAP_ARENA"), 103i32),
        (String::from("MINIMAP_ABYSS"), 7),
    ]));
}

#[test]
fn enums_round_trip() {
    round_trip(ControllerType::Mouse);
    round_trip(TableExpansion(TableExpansion::HORIZONTAL) | TableExpansion(TableExpansion::VERTICAL));
}

#[test]
fn enum_rejects_out_of_table() {
    let bytes = 99i32.to_le_bytes();
    let mut cur = &bytes[..];
    assert!(matches!(
        ControllerType::parse(&mut cur),
        Err(ParseWireError::InvalidEnumValue { value: 99 })
    ));
}

#[test]
fn other_scalars_round_trip() {
    round_trip(0x1234u16);
    round_trip(-2i16);
    round_trip(0xfeu8);
    round_trip(-100i8);
    round_trip(0x0102_0304_0506_0708u64);
    round_trip(DefString(-5));
    round_trip(DefIndex(42));
    round_trip(PString(vec![0, 0xff, 7]));
    round_trip(WStr::from("\u{1F600} smile"));
}

#[test]
fn exact_bytes() {
    let mut buf = vec![0u8; 12];
    let mut pos = 0usize;
    String::from("hé").serialize(&mut buf, &mut pos).unwrap();
    WStr::from("A\u{10437}").serialize(&mut buf, &mut pos).unwrap();
    assert_eq!(pos, 12);
    assert_eq!(buf, vec![b'h', 0xc3, 0xa9, 0, 0x41, 0, 0x01, 0xd8, 0x37, 0xdc, 0, 0]);
    assert_eq!(vec![5u16].wire_size(), 6);
    assert_eq!(WStr::from("A\u{10437}").wire_size(), 8);
}

#[test]
fn too_small_a_buffer() {
    let mut buf = vec![0u8; 5];
    let mut pos = 2usize;
    assert!(vec![1u8, 2].serialize(&mut buf, &mut pos).is_err());
    let mut pos = 0usize;
    assert!(String::from("abcde").serialize(&mut buf, &mut pos).is_err());
    let mut pos = 1usize;
    assert!(String::from("abc").serialize(&mut buf, &mut pos).is_ok());
    assert_eq!(pos, 5);
}

#[test]
fn parse_errors() {
    let mut cur: &[u8] = &[1, 2];
    assert_eq!(u32::parse(&mut cur), Err(ParseWireError::UnexpectedEnd));
    assert_eq!(cur.len(), 2);
    let mut cur: &[u8] = b"abc";
    assert_eq!(
        String::parse(&mut cur),
        Err(ParseWireError::Utf8(NulTerminatedUtf8Error::Unterminated))
    );
    let mut cur: &[u8] = &[0xff, 0, 1];
    assert_eq!(String::parse(&mut cur), Err(ParseWireError::Utf8(NulTerminatedUtf8Error::NotUtf8)));
    assert_eq!(cur, &[1u8][..]);
    let mut cur: &[u8] = &[0x41, 0, 0x42];
    assert_eq!(WStr::parse(&mut cur), Err(ParseWireError::Utf16(NulTerminatedUtf16Error::Unterminated)));
    let mut cur: &[u8] = &[0x00, 0xdc, 0, 0];
    assert_eq!(WStr::parse(&mut cur), Err(ParseWireError::Utf16(NulTerminatedUtf16Error::NotUtf16)));
    assert!(cur.is_empty());
    let mut cur: &[u8] = &[5, 0, 0, 0, 1, 2];
    assert_eq!(PString::parse(&mut cur), Err(ParseWireError::UnexpectedEnd));
    assert_eq!(cur, &[1u8, 2][..]);
    let mut cur: &[u8] = &[2, 0, 0, 0, 1, 0, 0, 0, 9];
    assert_eq!(
        Vec::<i32>::parse(&mut cur),
        Err(ParseWireError::Item { index: 1, inner: Box::new(ParseWireError::UnexpectedEnd) })
    );
    assert_eq!(cur, &[9u8][..]);
    let mut cur: &[u8] = &[1, 0, 0, 0, b'k', 0, 3, 0];
    assert_eq!(
        VecMap::<String, i32>::parse(&mut cur),
        Err(ParseWireError::Item { index: 0, inner: Box::new(ParseWireError::UnexpectedEnd) })
    );
}

#[test]
fn bool_reads_any_non_zero() {
    let mut cur: &[u8] = &[7];
    assert_eq!(bool::parse(&mut cur), Ok(true));
    let mut cur: &[u8] = &[0];
    assert_eq!(bool::parse(&mut cur), Ok(false));
}

#[test]
fn vec_map_keeps_stored_order() {
    let mut m: VecMap<u32, i32> = VecMap::default();
    m.insert(7, 1);
    m.insert(3, 2);
    m.insert(7, 5);
    assert_eq!(m.0, vec![(7, 5), (3, 2)]);
    assert_eq!(m.get(&7), Some(&5));
    assert_eq!(m.get(&3), Some(&2));
    assert_eq!(m.get(&4), None);
}

#[test]
fn vec_map_first_pair_wins() {
    let m = VecMap(vec![("a".to_string(), 1), ("b".to_string(), 2), ("a".to_string(), 3)]);
    assert_eq!(m.get(&"a".to_string()), Some(&1));
    let mut m = m;
    m.insert("a".to_string(), 9);
    assert_eq!(m.0[0], ("a".to_string(), 9));
    assert_eq!(m.0[2], ("a".to_string(), 3));
    m.insert("c".to_string(), 4);
    assert_eq!(m.0.len(), 4);
    assert_eq!(m.get(&"c".to_string()), Some(&4));
}

#[test]
fn vec_fills_its_sized_buffer() {
    let v = vec![1i32, 2, 3];
    let mut buf = vec![0u8; v.wire_size()];
    let mut pos = 0usize;
    v.serialize(&mut buf, &mut pos).unwrap();
    assert_eq!(pos, 16);
    assert_eq!(&buf[0..4], &3u32.to_le_bytes());
    let mut cur = &buf[..];
    assert_eq!(Vec::<i32>::parse(&mut cur).unwrap(), v);
    assert!(cur.is_empty());
}

#[test]
fn arrays_round_trip() {
    round_trip([5i32, -7]);
    round_trip([String::from("x"), String::from("yz"), String::new()]);
    let mut buf = vec![0u8; [1u16, 2, 3].wire_size()];
    assert_eq!(buf.len(), 6);
    let mut pos = 0usize;
    [1u16, 2, 3].serialize(&mut buf, &mut pos).unwrap();
    assert_eq!(buf, vec![1, 0, 2, 0, 3, 0]);
    let mut cur = &buf[..4];
    assert!(matches!(<[u16; 3]>::parse(&mut cur), Err(ParseWireError::Item { index: 2, .. })));
}

#[test]
fn btree_map_keys_ascend_and_later_pairs_win() {
    let m = BTreeMap::from([(9u32, 1u8), (3, 2), (5, 3)]);
    let mut buf = vec![0u8; m.wire_size()];
    assert_eq!(buf.len(), 4 + 3 * 5);
    let mut pos = 0usize;
    m.serialize(&mut buf, &mut pos).unwrap();
    assert_eq!(buf, vec![3, 0, 0, 0, 3, 0, 0, 0, 2, 5, 0, 0, 0, 3, 9, 0, 0, 0, 1]);
    // Two pairs with key 4: the later one stays.
    let bytes = [2u8, 0, 0, 0, 4, 0, 0, 0, 7, 4, 0, 0, 0, 8];
    let mut cur = &bytes[..];
    assert_eq!(BTreeMap::<u32, u8>::parse(&mut cur).unwrap(), BTreeMap::from([(4u32, 8u8)]));
    assert!(cur.is_empty());
}
