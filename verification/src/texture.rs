//! Texture assets: a length-prefixed, LZO-compressed top mip followed by the
//! other mips, in one of the BCn block encodings.

use vstd::prelude::*;
use bcndecode::{BcnDecoderFormat as F, BcnEncoding as E, Error as X};
use crate::bytes::{append_bytes, take_bytes, take_u16, take_u32, u16_le, u32_le};

verus! {

/// The BCn block encoding of a texture (the encodings `bcndecode` decodes).
#[derive(Debug, Clone, Copy, PartialEq, Eq)]
pub enum BcnEncoding {
    /// BC1: 565 colour, 1-bit alpha (DXT1).
    Bc1,
    /// BC2: 565 colour, 4-bit alpha (DXT3).
    Bc2,
    /// BC3: 565 colour, interpolated 8-bit alpha (DXT5).
    Bc3,
    /// BC4: one 8-bit channel.
    Bc4,
    /// BC5: two 8-bit channels.
    Bc5,
    /// BC6H: three half-float channels.
    Bc6H,
}

/// The pixel layout of decoded images.
#[derive(Debug, Copy, Clone, PartialEq, Eq)]
pub enum TextureImageFormat {
    RGBA,
    BGRA,
    ARGB,
    ABGR,
    /// Luminance, for BC4 only.
    LUM,
}

/// The errors of LZO decompression.
#[derive(Debug, Clone, Copy, PartialEq, Eq)]
pub enum LzoError {
    /// The compressed input ended before the block was fully decoded.
    InputOverrun,
    /// Decoding would write past the end of the output buffer.
    OutputOverrun,
    /// A back-reference points before the start of the output.
    LookbehindOverrun,
    /// The block decoded to a valid end but bytes remain in the input.
    InputNotConsumed,
    /// The block is malformed.
    Malformed,
}

/// The errors of BCn decoding.
#[derive(Debug, Copy, Clone, PartialEq, Eq)]
pub enum BcnError {
    ImageDecodingError,
    InvalidImageSize,
    FeatureNotImplemented,
    InvalidPixelFormat,
}

#[derive(Debug, Copy, Clone, PartialEq, Eq)]
pub enum TextureError {
    SmallLength,
    LargeLength,
    TopMipCompressed,
    TopMipLzoDecompress(LzoError),
    TopMipBcnDecompress(BcnError),
}

/// A texture: its dimensions, the length of its decompressed top mip, its
/// block encoding, and its image data (the decompressed top mip, then the
/// rest as stored).
pub struct Texture {
    pub width: usize,
    pub height: usize,
    pub depth: usize,
    pub top_mip_length: usize,
    pub bcn_encoding: BcnEncoding,
    pub raw_image_data: Vec<u8>,
}

// ── the outside decoders ──────────────────────────────────────────────────────

/// What `lzo::decompress` makes of a compressed block with an output of at
/// most `max_len` bytes.
pub uninterp spec fn lzo_decompressed(src: Seq<u8>, max_len: usize) -> Result<Seq<u8>, LzoError>;

/// What `bcndecode::decode` makes of BCn data.
pub uninterp spec fn bcn_decoded(
    source: Seq<u8>,
    width: usize,
    height: usize,
    encoding: BcnEncoding,
    format: TextureImageFormat,
) -> Result<Seq<u8>, BcnError>;

/// The size of a decoded image: four bytes a pixel, one for BC4 and
/// sixteen for BC6H.
pub open spec fn decoded_len(width: int, height: int, encoding: BcnEncoding) -> int {
    match encoding {
        BcnEncoding::Bc4 => width * height,
        BcnEncoding::Bc6H => 16 * width * height,
        _ => 4 * width * height,
    }
}

/// A decoder's result by the view of its bytes.
pub open spec fn bytes_result<E>(r: Result<Vec<u8>, E>) -> Result<Seq<u8>, E> {
    match r {
        Ok(v) => Ok(v@),
        Err(e) => Err(e),
    }
}

/// Decompresses an LZO1X block with `lzo::decompress`, into an output of at
/// most `max_len` bytes. Claimed: the result is a function of the block and
/// the bound (named, not spelled out); an output is never longer than the
/// bound; a block shorter than three bytes is an input overrun.
#[verifier::external_body]
pub(crate) fn lzo_decompress(src: &[u8], max_len: usize) -> (r: Result<Vec<u8>, LzoError>)
    ensures
        bytes_result(r) == lzo_decompressed(src@, max_len),
        r matches Ok(v) ==> v@.len() <= max_len,
        src@.len() < 3 ==> r is Err && r->Err_0 == LzoError::InputOverrun,
{
    match lzo::decompress(src, max_len) {
        Ok(v) => Ok(v),
        Err(lzo::Error::InputOverrun) => Err(LzoError::InputOverrun),
        Err(lzo::Error::OutputOverrun) => Err(LzoError::OutputOverrun),
        Err(lzo::Error::LookbehindOverrun) => Err(LzoError::LookbehindOverrun),
        Err(lzo::Error::InputNotConsumed) => Err(LzoError::InputNotConsumed),
        Err(lzo::Error::Malformed) => Err(LzoError::Malformed),
    }
}

/// Decodes BCn data with `bcndecode::decode`, in the `bcndecode` encoding
/// and pixel format of the same names. Claimed: the result is a function of the
/// arguments (named, not spelled out); a zero dimension is an invalid size;
/// luminance output for anything but BC4 is an invalid pixel format;
/// otherwise the decoding succeeds with an image of [`decoded_len`] bytes.
/// Sizes whose decoded length overflows a `usize` are left out.
#[verifier::external_body]
fn bcn_decode(
    source: &[u8],
    width: usize,
    height: usize,
    encoding: BcnEncoding,
    format: TextureImageFormat,
) -> (r: Result<Vec<u8>, BcnError>)
    requires
        16 * width * height <= usize::MAX,
    ensures
        bytes_result(r) == bcn_decoded(source@, width, height, encoding, format),
        (width == 0 || height == 0) ==> r is Err && r->Err_0 == BcnError::InvalidImageSize,
        (width > 0 && height > 0 && format == TextureImageFormat::LUM && encoding != BcnEncoding::Bc4) ==> r is Err
            && r->Err_0 == BcnError::InvalidPixelFormat,
        (width > 0 && height > 0 && !(format == TextureImageFormat::LUM && encoding != BcnEncoding::Bc4))
            ==> r is Ok,
        r matches Ok(v) ==> v@.len() == decoded_len(width as int, height as int, encoding),
{
    let e = match encoding { BcnEncoding::Bc1 => E::Bc1, BcnEncoding::Bc2 => E::Bc2, BcnEncoding::Bc3 => E::Bc3, BcnEncoding::Bc4 => E::Bc4, BcnEncoding::Bc5 => E::Bc5, BcnEncoding::Bc6H => E::Bc6H };
    let f = match format { TextureImageFormat::RGBA => F::RGBA, TextureImageFormat::BGRA => F::BGRA, TextureImageFormat::ARGB => F::ARGB, TextureImageFormat::ABGR => F::ABGR, TextureImageFormat::LUM => F::LUM };
    match bcndecode::decode(source, width, height, e, f) {
        Ok(v) => Ok(v),
        Err(X::ImageDecodingError) => Err(BcnError::ImageDecodingError),
        Err(X::InvalidImageSize) => Err(BcnError::InvalidImageSize),
        Err(X::FeatureNotImplemented) => Err(BcnError::FeatureNotImplemented),
        Err(X::InvalidPixelFormat) => Err(BcnError::InvalidPixelFormat),
    }
}

// ── the model ─────────────────────────────────────────────────────────────────

/// The BCn encoding of Fable's `dxt_compression` tag: `1`, `31` and `33` are
/// DXT1 (BC1); `3`, `32` and `34` DXT3 (BC2); `5` and `35` DXT5 (BC3).
pub open spec fn dxt_encoding(dxt: u16) -> Option<BcnEncoding> {
    if dxt == 1 || dxt == 31 || dxt == 33 {
        Some(BcnEncoding::Bc1)
    } else if dxt == 3 || dxt == 32 || dxt == 34 {
        Some(BcnEncoding::Bc2)
    } else if dxt == 5 || dxt == 35 {
        Some(BcnEncoding::Bc3)
    } else {
        None
    }
}

/// The D3D DXT tags keep their BCn meaning: the tags of DXT1 (`1`, and
/// Fable's `31`, `33`) give BC1, those of DXT3 (`3`, `32`, `34`) BC2, those
/// of DXT5 (`5`, `35`) BC3, and no other tag is decoded.
pub proof fn lemma_dxt_families(dxt: u16)
    ensures
        dxt_encoding(dxt) == Some(BcnEncoding::Bc1) <==> (dxt == 1 || dxt == 31 || dxt == 33),
        dxt_encoding(dxt) == Some(BcnEncoding::Bc2) <==> (dxt == 3 || dxt == 32 || dxt == 34),
        dxt_encoding(dxt) == Some(BcnEncoding::Bc3) <==> (dxt == 5 || dxt == 35),
        dxt_encoding(dxt) is None <==> !(dxt == 1 || dxt == 31 || dxt == 33 || dxt == 3 || dxt == 32 || dxt == 34
            || dxt == 5 || dxt == 35),
{
}

/// The image data of a texture from its decompressed top mip and the bytes
/// stored after it, or the decompression's error.
pub open spec fn image_data_m(top_mip: Result<Seq<u8>, LzoError>, rest: Seq<u8>) -> Result<Seq<u8>, TextureError> {
    match top_mip {
        Ok(t) => Ok(t + rest),
        Err(e) => Err(TextureError::TopMipLzoDecompress(e)),
    }
}

/// A texture as stored in `input`: a little-endian `u16` length of the
/// compressed top mip (`0xffff` announcing a `u32` one instead), that many
/// LZO-compressed bytes (none for length 0), then the rest of the image
/// data as is. The image data or the error, and what is left of `input`.
pub open spec fn texture_m(input: Seq<u8>, top_mip_length: usize) -> (Result<Seq<u8>, TextureError>, Seq<u8>) {
    if input.len() < 2 {
        (Err(TextureError::SmallLength), input)
    } else {
        let small = u16_le(input);
        let rest1 = input.skip(2);
        if small == 0xffff && rest1.len() < 4 {
            (Err(TextureError::LargeLength), rest1)
        } else {
            let len: int = if small == 0xffff {
                u32_le(rest1) as int
            } else {
                small as int
            };
            let rest2 = if small == 0xffff {
                rest1.skip(4)
            } else {
                rest1
            };
            if len == 0 {
                (Ok(rest2), rest2)
            } else if rest2.len() < len {
                (Err(TextureError::TopMipCompressed), rest2)
            } else {
                (image_data_m(lzo_decompressed(rest2.take(len), top_mip_length), rest2.skip(len)), rest2.skip(len))
            }
        }
    }
}

/// The texture `t` holds the given fields and image data.
pub open spec fn texture_is(
    t: Texture,
    width: usize,
    height: usize,
    depth: usize,
    top_mip_length: usize,
    bcn_encoding: BcnEncoding,
    data: Seq<u8>,
) -> bool {
    &&& t.width == width
    &&& t.height == height
    &&& t.depth == depth
    &&& t.top_mip_length == top_mip_length
    &&& t.bcn_encoding == bcn_encoding
    &&& t.raw_image_data@ == data
}

/// The pixel image of a texture's top mip: none for an empty one, else what
/// decoding made of it, or the decoding's error.
pub open spec fn pixel_image_m(top: Seq<u8>, decoded: Result<Seq<u8>, BcnError>) -> Result<Seq<u8>, TextureError> {
    if top.len() == 0 {
        Ok(Seq::empty())
    } else {
        match decoded {
            Ok(v) => Ok(v),
            Err(e) => Err(TextureError::TopMipBcnDecompress(e)),
        }
    }
}

// ── the code ──────────────────────────────────────────────────────────────────

/// The BCn encoding of Fable's `dxt_compression` tag (see [`dxt_encoding`]);
/// `None` for tags that are not decoded.
pub fn bcn_encoding_from_dxt(dxt: u16) -> (r: Option<BcnEncoding>)
    ensures
        r == dxt_encoding(dxt),
{
    match dxt {
        1 | 31 | 33 => Some(BcnEncoding::Bc1),
        3 | 32 | 34 => Some(BcnEncoding::Bc2),
        5 | 35 => Some(BcnEncoding::Bc3),
        _ => None,
    }
}

/// The bytes one 4x4 block takes in a BCn encoding: 8 for BC1, 16 otherwise.
pub fn bcn_block_bytes(encoding: BcnEncoding) -> (r: u32)
    ensures
        r == (if encoding == BcnEncoding::Bc1 {
            8u32
        } else {
            16u32
        }),
{
    match encoding {
        BcnEncoding::Bc1 => 8,
        _ => 16,
    }
}

/// The image data of a texture from its decompressed top mip and the bytes
/// stored after it (see [`image_data_m`]).
pub fn image_data_from_top_mip(top_mip: Result<Vec<u8>, LzoError>, rest: &[u8]) -> (r: Result<Vec<u8>, TextureError>)
    ensures
        image_data_m(
            match top_mip {
                Ok(v) => Ok(v@),
                Err(e) => Err(e),
            },
            rest@,
        ) == (match r {
            Ok(v) => Ok(v@),
            Err(e) => Err(e),
        }),
{
    match top_mip {
        Ok(t) => {
            let mut data = t;
            append_bytes(&mut data, rest);
            Ok(data)
        },
        Err(e) => Err(TextureError::TopMipLzoDecompress(e)),
    }
}

/// The pixel image of a texture's top mip from what decoding made of it
/// (see [`pixel_image_m`]).
pub fn pixel_image_from_decoded(top: &[u8], decoded: Result<Vec<u8>, BcnError>) -> (r: Result<Vec<u8>, TextureError>)
    ensures
        pixel_image_m(
            top@,
            match decoded {
                Ok(v) => Ok(v@),
                Err(e) => Err(e),
            },
        ) == (match r {
            Ok(v) => Ok(v@),
            Err(e) => Err(e),
        }),
{
    if top.len() == 0 {
        return Ok(Vec::new());
    }
    match decoded {
        Ok(v) => Ok(v),
        Err(e) => Err(TextureError::TopMipBcnDecompress(e)),
    }
}

impl Texture {
    /// Reads a texture from `input` (see [`texture_m`]), advancing `input`
    /// past the length and the compressed top mip.
    pub fn parse(
        input: &mut &[u8],
        width: usize,
        height: usize,
        depth: usize,
        top_mip_length: usize,
        bcn_encoding: BcnEncoding,
    ) -> (r: Result<Self, TextureError>)
        ensures
            final(input)@ == texture_m(old(input)@, top_mip_length).1,
            match texture_m(old(input)@, top_mip_length).0 {
                Ok(data) => r matches Ok(t) && texture_is(t, width, height, depth, top_mip_length, bcn_encoding, data),
                Err(e) => r matches Err(x) && x == e,
            },
    {
        let small_length = match take_u16(input) {
            Ok(v) => v,
            Err(_) => {
                return Err(TextureError::SmallLength);
            },
        };
        let top_mip_compressed_length: u32 = if small_length == 0xffff {
            match take_u32(input) {
                Ok(v) => v,
                Err(_) => {
                    return Err(TextureError::LargeLength);
                },
            }
        } else {
            small_length as u32
        };
        let raw_image_data = if top_mip_compressed_length > 0 {
            let top_mip_compressed = match take_bytes(input, top_mip_compressed_length as usize) {
                Ok(b) => b,
                Err(_) => {
                    return Err(TextureError::TopMipCompressed);
                },
            };
            let top_mip = lzo_decompress(top_mip_compressed, top_mip_length);
            match image_data_from_top_mip(top_mip, *input) {
                Ok(d) => d,
                Err(e) => {
                    return Err(e);
                },
            }
        } else {
            let mut data: Vec<u8> = Vec::new();
            append_bytes(&mut data, *input);
            assert(data@ =~= input@);
            data
        };
        Ok(Texture { width, height, depth, top_mip_length, bcn_encoding, raw_image_data })
    }

    /// The BCn data of the top mip: the first `top_mip_length` bytes of the
    /// image data, where there are that many.
    pub fn get_top_mip_bcn_image(&self) -> (r: Result<&[u8], TextureError>)
        ensures
            self.top_mip_length <= self.raw_image_data@.len() ==> (r matches Ok(s) && s@
                == self.raw_image_data@.take(self.top_mip_length as int)),
            self.top_mip_length > self.raw_image_data@.len() ==> r == Err::<&[u8], TextureError>(
                TextureError::TopMipCompressed,
            ),
    {
        let data = self.raw_image_data.as_slice();
        if self.top_mip_length > data.len() {
            return Err(TextureError::TopMipCompressed);
        }
        let (head, _) = data.split_at(self.top_mip_length);
        Ok(head)
    }

    /// The top mip decoded into pixels of `format`: nothing for an empty top
    /// mip, else what `bcndecode` makes of it (see [`pixel_image_m`]).
    pub fn get_top_mip_pixel_image(&self, format: TextureImageFormat) -> (r: Result<Vec<u8>, TextureError>)
        requires
            16 * self.width * self.height <= usize::MAX,
        ensures
            self.top_mip_length > self.raw_image_data@.len() ==> r == Err::<Vec<u8>, TextureError>(
                TextureError::TopMipCompressed,
            ),
            self.top_mip_length <= self.raw_image_data@.len() ==> pixel_image_m(
                self.raw_image_data@.take(self.top_mip_length as int),
                bcn_decoded(
                    self.raw_image_data@.take(self.top_mip_length as int),
                    self.width,
                    self.height,
                    self.bcn_encoding,
                    format,
                ),
            ) == (match r {
                Ok(v) => Ok(v@),
                Err(e) => Err(e),
            }),
    {
        let top = match self.get_top_mip_bcn_image() {
            Ok(t) => t,
            Err(e) => {
                return Err(e);
            },
        };
        if top.len() == 0 {
            return Ok(Vec::new());
        }
        let decoded = bcn_decode(top, self.width, self.height, self.bcn_encoding, format);
        pixel_image_from_decoded(top, decoded)
    }
}

} // verus!
