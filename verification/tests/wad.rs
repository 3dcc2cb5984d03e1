use fable_data::wad::{
    content_padding, padded_content, read_asset_table, serialize_asset_table, AssetMetadata, AssetMetadataError,
    Header, HeaderError, ReadAssetTableError, WadReader, WadReaderError,
};

fn entry(id: u32, path: &str, len: u32, pos: u32) -> AssetMetadata {
    AssetMetadata {
        unknown_1: [0; 16],
        id,
        unknown_2: 0,
        content_length: len,
        content_position: pos,
        unknown_3: 0,
        path: path.to_string(),
        unknown_4: [0; 16],
        created: [0; 7],
        accessed: [0; 7],
        modified: [0; 5],
    }
}

#[test]
fn wad_pack_unpack_round_trip() {
    let block_size: usize = 2048;

    let files: &[(&str, &[u8])] = &[
        ("Data\\Levels\\Foo\\a.bin", b"hello world"),
        ("Data\\Levels\\Foo\\b.bin", &[0xAB; 5000]),
        ("Data\\Levels\\Foo\\empty.bin", b""),
    ];

    // Pack: the first block is the header, then each content padded to a block.
    let mut bytes = vec![0u8; block_size];
    let mut entries = Vec::new();
    let mut position = block_size;

    for (id, (path, content)) in files.iter().enumerate() {
        let padding = content_padding(content.len(), block_size);
        bytes.extend_from_slice(content);
        bytes.extend(std::iter::repeat(0u8).take(padding));
        let written = content.len() + padding;
        entries.push(entry(id as u32, path, content.len() as u32, position as u32));
        position += written;
    }

    let asset_table_position = position as u32;
    let table = serialize_asset_table(&entries).unwrap();
    bytes.extend_from_slice(&table);

    let header = Header {
        magic: Header::MAGIC,
        version: [1, 0, 0],
        block_size: block_size as u32,
        asset_count: files.len() as u32,
        asset_count_2: files.len() as u32,
        asset_table_position,
    };
    let mut header_bytes = vec![0u8; Header::BYTE_SIZE];
    let mut pos = 0usize;
    header.serialize(&mut header_bytes, &mut pos).unwrap();
    bytes[..Header::BYTE_SIZE].copy_from_slice(&header_bytes);

    // Unpack.
    let reader = WadReader::new(bytes).unwrap();

    assert_eq!(reader.header().magic, Header::MAGIC);
    assert_eq!(reader.header().asset_count, files.len() as u32);

    for (path, content) in files {
        let asset = reader.asset(path).expect("asset present").clone();
        let read_back = reader.read_content(&asset).unwrap();
        assert_eq!(&read_back[..], *content, "content mismatch for {path}");
    }
}

#[test]
fn header_round_trip_and_short_input() {
    let header = Header {
        magic: Header::MAGIC,
        version: [7, 8, 9],
        block_size: 2048,
        asset_count: 3,
        asset_count_2: 3,
        asset_table_position: 0x1234_5678,
    };
    let mut buf = vec![0u8; 32];
    let mut pos = 0usize;
    header.serialize(&mut buf, &mut pos).unwrap();
    assert_eq!(pos, 32);
    assert_eq!(&buf[..4], b"BBBB");
    assert_eq!(&buf[28..32], &[0x78, 0x56, 0x34, 0x12]);
    let mut inp: &[u8] = &buf;
    let back = Header::parse(&mut inp).unwrap();
    assert_eq!(back.version, [7, 8, 9]);
    assert_eq!(back.asset_table_position, 0x1234_5678);
    assert!(inp.is_empty());

    let mut short: &[u8] = &buf[..21];
    assert!(matches!(Header::parse(&mut short), Err(HeaderError::AssetCount)));
    let mut small = vec![0u8; 10];
    let mut pos = 0usize;
    assert!(matches!(header.serialize(&mut small, &mut pos), Err(HeaderError::Version)));
    assert_eq!(pos, 4);
}

#[test]
fn asset_entry_round_trip_and_errors() {
    let a = entry(5, "Data\\x.lev", 10, 4096);
    assert_eq!(a.byte_size(), 132 + 10);
    let mut buf = vec![0u8; a.byte_size()];
    let mut pos = 0usize;
    a.serialize(&mut buf, &mut pos).unwrap();
    assert_eq!(pos, buf.len());
    let mut inp: &[u8] = &buf;
    let b = fable_data::wad::AssetMetadataRef::parse(&mut inp).unwrap();
    assert_eq!(b.path, "Data\\x.lev");
    assert_eq!(b.id, 5);
    assert_eq!(b.content_position, 4096);

    let mut cut: &[u8] = &buf[..45];
    assert!(matches!(
        fable_data::wad::AssetMetadataRef::parse(&mut cut),
        Err(AssetMetadataError::Path)
    ));
    let mut bad = buf.clone();
    bad[40] = 0xff;
    let mut inp: &[u8] = &bad;
    assert!(matches!(
        fable_data::wad::AssetMetadataRef::parse(&mut inp),
        Err(AssetMetadataError::PathToString)
    ));
}

#[test]
fn reader_reports_short_files_and_bad_tables() {
    assert!(matches!(WadReader::new(vec![0u8; 31]), Err(WadReaderError::ReadHeader)));
    // A header announcing one asset, with nothing after it.
    let mut bytes = vec![0u8; 32];
    bytes[20] = 1;
    bytes[28] = 32;
    assert!(matches!(
        WadReader::new(bytes),
        Err(WadReaderError::ReadAssetTable(ReadAssetTableError::ParseAssetMetadata(
            0,
            AssetMetadataError::Unknown1
        )))
    ));
}

#[test]
fn later_entries_replace_earlier_ones_with_the_same_path() {
    let es = vec![entry(1, "a", 1, 0), entry(2, "b", 2, 0), entry(3, "a", 3, 0)];
    let table = serialize_asset_table(&es).unwrap();
    let assets = read_asset_table(&table, 3).unwrap();
    assert_eq!(assets.len(), 2);
    assert_eq!(assets[0].id, 3);
    assert_eq!(assets[1].id, 2);
}

#[test]
fn padding_fills_the_last_block() {
    assert_eq!(content_padding(11, 2048), 2037);
    assert_eq!(content_padding(4096, 2048), 0);
    assert_eq!(content_padding(0, 2048), 0);
    assert_eq!(content_padding(5, 0), 0);
}

#[test]
fn content_is_padded_to_its_block() {
    assert_eq!(padded_content(&[7u8; 11], 2048).len(), 2048);
    assert_eq!(padded_content(&[7u8; 5000], 2048).len(), 6144);
    assert!(padded_content(&[], 2048).is_empty());
    let p = padded_content(&[1, 2, 3], 4);
    assert_eq!(p, vec![1, 2, 3, 0]);
    assert_eq!(padded_content(&[1, 2, 3], 0), vec![1, 2, 3]);
}
