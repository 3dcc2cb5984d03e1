use fable_data::texture::{
    bcn_block_bytes, bcn_encoding_from_dxt, BcnEncoding, BcnError, LzoError, Texture, TextureError, TextureImageFormat,
};

// "hello, lzo world!" compressed by liblzo2's lzo1x_1.
const HELLO: [u8; 21] = [34, 104, 101, 108, 108, 111, 44, 32, 108, 122, 111, 32, 119, 111, 114, 108, 100, 33, 17, 0, 0];

#[test]
fn dxt_tags() {
    assert_eq!(bcn_encoding_from_dxt(1), Some(BcnEncoding::Bc1));
    assert_eq!(bcn_encoding_from_dxt(31), Some(BcnEncoding::Bc1));
    assert_eq!(bcn_encoding_from_dxt(34), Some(BcnEncoding::Bc2));
    assert_eq!(bcn_encoding_from_dxt(35), Some(BcnEncoding::Bc3));
    assert_eq!(bcn_encoding_from_dxt(2), None);
    assert_eq!(bcn_block_bytes(BcnEncoding::Bc1), 8);
    assert_eq!(bcn_block_bytes(BcnEncoding::Bc3), 16);
}

#[test]
fn uncompressed_top_mip() {
    let data = [0u8, 0, 7, 8, 9];
    let mut input: &[u8] = &data;
    let t = Texture::parse(&mut input, 4, 4, 1, 2, BcnEncoding::Bc1).unwrap();
    assert_eq!(t.raw_image_data, vec![7, 8, 9]);
    assert_eq!(t.get_top_mip_bcn_image().unwrap(), &[7, 8]);
    assert_eq!(input, &[7, 8, 9]);
}

#[test]
fn lzo_top_mip_is_decompressed() {
    let mut data = vec![21u8, 0];
    data.extend_from_slice(&HELLO);
    data.extend_from_slice(&[1, 2]);
    let mut input: &[u8] = &data;
    let t = Texture::parse(&mut input, 1, 1, 1, 17, BcnEncoding::Bc3).unwrap();
    let mut expected = b"hello, lzo world!".to_vec();
    expected.extend_from_slice(&[1, 2]);
    assert_eq!(t.raw_image_data, expected);
    assert_eq!(input, &[1, 2]);
    assert_eq!(t.get_top_mip_bcn_image().unwrap(), b"hello, lzo world!");
}

#[test]
fn large_length_prefix() {
    let mut data = vec![0xffu8, 0xff, 21, 0, 0, 0];
    data.extend_from_slice(&HELLO);
    let mut input: &[u8] = &data;
    let t = Texture::parse(&mut input, 1, 1, 1, 17, BcnEncoding::Bc3).unwrap();
    assert_eq!(t.raw_image_data, b"hello, lzo world!".to_vec());
}

#[test]
fn texture_errors() {
    let mut input: &[u8] = &[5];
    assert!(matches!(Texture::parse(&mut input, 1, 1, 1, 1, BcnEncoding::Bc1), Err(TextureError::SmallLength)));
    let mut input: &[u8] = &[0xff, 0xff, 1];
    assert!(matches!(Texture::parse(&mut input, 1, 1, 1, 1, BcnEncoding::Bc1), Err(TextureError::LargeLength)));
    let mut input: &[u8] = &[9, 0, 1, 2];
    assert!(matches!(Texture::parse(&mut input, 1, 1, 1, 1, BcnEncoding::Bc1), Err(TextureError::TopMipCompressed)));
    let mut input: &[u8] = &[2, 0, 1, 2];
    assert!(matches!(
        Texture::parse(&mut input, 1, 1, 1, 1, BcnEncoding::Bc1),
        Err(TextureError::TopMipLzoDecompress(LzoError::InputOverrun))
    ));
    // The output bound is too small for the block.
    let mut data = vec![21u8, 0];
    data.extend_from_slice(&HELLO);
    let mut input: &[u8] = &data;
    assert!(matches!(
        Texture::parse(&mut input, 1, 1, 1, 4, BcnEncoding::Bc1),
        Err(TextureError::TopMipLzoDecompress(LzoError::OutputOverrun))
    ));
}

#[test]
fn top_mip_longer_than_data() {
    let mut input: &[u8] = &[0, 0, 1];
    let t = Texture::parse(&mut input, 4, 4, 1, 8, BcnEncoding::Bc1).unwrap();
    assert!(matches!(t.get_top_mip_bcn_image(), Err(TextureError::TopMipCompressed)));
    assert!(matches!(t.get_top_mip_pixel_image(TextureImageFormat::RGBA), Err(TextureError::TopMipCompressed)));
}

#[test]
fn bc1_block_decodes_to_pixels() {
    let block = [0u8, 0, 0xff, 0xff, 0xff, 0xff, 0, 0, 0, 0];
    let mut input: &[u8] = &block;
    let t = Texture::parse(&mut input, 4, 4, 1, 8, BcnEncoding::Bc1).unwrap();
    let px = t.get_top_mip_pixel_image(TextureImageFormat::RGBA).unwrap();
    assert_eq!(px.len(), 64);
    assert_eq!(&px[0..4], &[255, 255, 255, 255]);
    assert!(matches!(
        t.get_top_mip_pixel_image(TextureImageFormat::LUM),
        Err(TextureError::TopMipBcnDecompress(BcnError::InvalidPixelFormat))
    ));
}

#[test]
fn empty_top_mip_gives_no_pixels() {
    let mut input: &[u8] = &[0, 0];
    let t = Texture::parse(&mut input, 0, 0, 1, 0, BcnEncoding::Bc1).unwrap();
    assert_eq!(t.get_top_mip_pixel_image(TextureImageFormat::RGBA).unwrap(), Vec::<u8>::new());
    let mut input: &[u8] = &[0, 0, 1, 2, 3, 4, 5, 6, 7, 8];
    let t = Texture::parse(&mut input, 0, 4, 1, 8, BcnEncoding::Bc1).unwrap();
    assert!(matches!(
        t.get_top_mip_pixel_image(TextureImageFormat::RGBA),
        Err(TextureError::TopMipBcnDecompress(BcnError::InvalidImageSize))
    ));
}
