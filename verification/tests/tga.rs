use fable_data::tga::{Header, Tga, TgaError};

#[test]
fn test_header_size() {
    assert_eq!(Header::BYTE_SIZE, 18);
}

/// An 18-byte header for a `w`×`h` image of type `image_type` and `depth` bits.
fn header_bytes(image_type: u8, w: u16, h: u16, depth: u8, descriptor: u8) -> Vec<u8> {
    let mut b = vec![0u8, 0, image_type, 0, 0, 0, 0, 0, 0, 0, 0, 0];
    b.extend_from_slice(&w.to_le_bytes());
    b.extend_from_slice(&h.to_le_bytes());
    b.push(depth);
    b.push(descriptor);
    b
}

#[test]
fn uncompressed_bottom_left_to_rgba() {
    // 2×2, 24-bit BGR, rows stored bottom-up.
    let mut data = header_bytes(2, 2, 2, 24, 0);
    // bottom row: red, green
    data.extend_from_slice(&[0, 0, 255, 0, 255, 0]);
    // top row: blue, white
    data.extend_from_slice(&[255, 0, 0, 255, 255, 255]);
    let tga = Tga::parse(&data).unwrap();
    assert_eq!(tga.width(), 2);
    assert_eq!(tga.height(), 2);
    assert_eq!(tga.bytes_per_pixel(), 3);
    assert!(!tga.is_top_origin());
    assert_eq!(
        tga.to_rgba(),
        vec![0, 0, 255, 255, 255, 255, 255, 255, 255, 0, 0, 255, 0, 255, 0, 255]
    );
    assert_eq!(tga.get_pixel(0, 0), [0, 0, 255, 255]);
    assert_eq!(tga.get_pixel(0, 1), [255, 0, 0, 255]);
}

#[test]
fn rle_packets_expand() {
    // 3×1, 32-bit BGRA: a run of two pixels, then one raw pixel.
    let mut data = header_bytes(10, 3, 1, 32, 0x20);
    data.extend_from_slice(&[0x81, 1, 2, 3, 4]);
    data.extend_from_slice(&[0x00, 9, 8, 7, 6]);
    let tga = Tga::parse(&data).unwrap();
    assert!(tga.is_top_origin());
    assert_eq!(tga.pixels, vec![1, 2, 3, 4, 1, 2, 3, 4, 9, 8, 7, 6]);
    assert_eq!(tga.get_pixel(2, 0), [7, 8, 9, 6]);
}

#[test]
fn errors_name_the_part_that_is_missing() {
    assert!(matches!(Tga::parse(&[0u8; 10]), Err(TgaError::Header)));
    let data = header_bytes(3, 1, 1, 8, 0);
    assert!(matches!(Tga::parse(&data), Err(TgaError::UnsupportedImageType(3))));
    let data = header_bytes(2, 2, 1, 24, 0);
    assert!(matches!(Tga::parse(&data), Err(TgaError::PixelData)));
    let mut data = header_bytes(10, 2, 1, 24, 0);
    data.extend_from_slice(&[0x80, 1, 2, 3]);
    assert!(matches!(Tga::parse(&data), Err(TgaError::RlePacket)));
    let mut data = header_bytes(2, 1, 1, 24, 0);
    data[0] = 5;
    data.extend_from_slice(&[1, 2]);
    assert!(matches!(Tga::parse(&data), Err(TgaError::ImageId)));
}
