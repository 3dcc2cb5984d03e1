//! Parser for TGA (Truevision TGA) image files.
//!
//! This is a minimal implementation that supports the common uncompressed
//! and RLE-compressed true-color formats used in Fable's data files.

use vstd::prelude::*;

use crate::bytes::{append_bytes, take_bytes, take_u16, take_u8, u16_le};

verus! {

/// A parsed TGA image.
#[derive(Clone, Debug)]
pub struct Tga {
    pub header: Header,
    /// Raw pixel data in the format specified by the header.
    /// For 24-bit images: BGR order, bottom-to-top rows.
    /// For 32-bit images: BGRA order, bottom-to-top rows.
    pub pixels: Vec<u8>,
}

/// TGA file header (18 bytes).
#[derive(Clone, Copy, Debug, PartialEq, Eq, Structural)]
pub struct Header {
    /// Length of image ID field (0 = no ID).
    pub id_length: u8,
    /// Color map type (0 = no color map, 1 = color map present).
    pub color_map_type: u8,
    /// Image type: 2 = uncompressed true-color, 10 = RLE true-color (the two
    /// decoded here); 0, 1, 3, 9 and 11 are the other TGA kinds.
    pub image_type: u8,
    /// Color map first entry index.
    pub color_map_first_index: u16,
    /// Color map length (number of entries).
    pub color_map_length: u16,
    /// Color map entry size in bits.
    pub color_map_entry_size: u8,
    /// X origin of image.
    pub x_origin: u16,
    /// Y origin of image.
    pub y_origin: u16,
    /// Image width in pixels.
    pub width: u16,
    /// Image height in pixels.
    pub height: u16,
    /// Pixel depth (bits per pixel: 8, 16, 24, or 32).
    pub pixel_depth: u8,
    /// Image descriptor; bit 5 is the screen origin (0 = lower-left,
    /// 1 = upper-left).
    pub image_descriptor: u8,
}

#[derive(Debug, Clone, Copy, PartialEq, Eq, Structural)]
pub enum TgaError {
    Header,
    ImageId,
    ColorMap,
    PixelData,
    RlePacket,
    UnsupportedImageType(u8),
}

// ── model ─────────────────────────────────────────────────────────────────────

/// The header that the first 18 bytes of `b` encode.
pub open spec fn spec_header(b: Seq<u8>) -> Header {
    Header {
        id_length: b[0],
        color_map_type: b[1],
        image_type: b[2],
        color_map_first_index: u16_le(b.skip(3)),
        color_map_length: u16_le(b.skip(5)),
        color_map_entry_size: b[7],
        x_origin: u16_le(b.skip(8)),
        y_origin: u16_le(b.skip(10)),
        width: u16_le(b.skip(12)),
        height: u16_le(b.skip(14)),
        pixel_depth: b[16],
        image_descriptor: b[17],
    }
}

/// How many bytes [`Header::parse`] consumes from an input of `len` bytes:
/// every header field that fits entirely.
pub open spec fn header_consumed(len: int) -> int {
    if len < 1 { 0 }
    else if len < 2 { 1 }
    else if len < 3 { 2 }
    else if len < 5 { 3 }
    else if len < 7 { 5 }
    else if len < 8 { 7 }
    else if len < 10 { 8 }
    else if len < 12 { 10 }
    else if len < 14 { 12 }
    else if len < 16 { 14 }
    else if len < 17 { 16 }
    else if len < 18 { 17 }
    else { 18 }
}

/// `p` repeated `n` times.
pub open spec fn repeat_bytes(p: Seq<u8>, n: nat) -> Seq<u8>
    decreases n,
{
    if n == 0 {
        Seq::empty()
    } else {
        repeat_bytes(p, (n - 1) as nat) + p
    }
}

/// RLE decoding: appends decoded packets to `acc` until it holds at least
/// `expected` bytes; yields the pixels and the unread rest of the input.
pub open spec fn spec_decode_rle(input: Seq<u8>, expected: int, bpp: nat, acc: Seq<u8>) -> Result<
    (Seq<u8>, Seq<u8>),
    TgaError,
>
    decreases input.len(),
{
    if acc.len() >= expected {
        Ok((acc, input))
    } else if input.len() < 1 {
        Err(TgaError::RlePacket)
    } else {
        let packet = input[0];
        let count = (packet & 0x7f) as nat + 1;
        let rest = input.skip(1);
        if packet & 0x80 != 0 {
            if rest.len() < bpp {
                Err(TgaError::PixelData)
            } else {
                spec_decode_rle(
                    rest.skip(bpp as int),
                    expected,
                    bpp,
                    acc + repeat_bytes(rest.take(bpp as int), count),
                )
            }
        } else {
            if rest.len() < count * bpp {
                Err(TgaError::PixelData)
            } else {
                spec_decode_rle(rest.skip((count * bpp) as int), expected, bpp, acc + rest.take((count * bpp) as int))
            }
        }
    }
}

/// Number of pixel-data bytes the header announces.
pub open spec fn pixel_data_size(h: Header) -> int {
    h.width as int * h.height as int * (h.pixel_depth as int / 8)
}

/// The input after the header, the image ID and the color map, or the error
/// met on the way.
pub open spec fn spec_after_preamble(input: Seq<u8>) -> Result<Seq<u8>, TgaError> {
    let h = spec_header(input);
    let rest = input.skip(18);
    if input.len() < 18 {
        Err(TgaError::Header)
    } else if h.id_length > 0 && rest.len() < h.id_length {
        Err(TgaError::ImageId)
    } else {
        let rest = if h.id_length > 0 { rest.skip(h.id_length as int) } else { rest };
        let cm = h.color_map_length as int * (h.color_map_entry_size as int / 8);
        if h.color_map_type != 0 && rest.len() < cm {
            Err(TgaError::ColorMap)
        } else if h.color_map_type != 0 {
            Ok(rest.skip(cm))
        } else {
            Ok(rest)
        }
    }
}

/// What [`Tga::parse`] yields for `input`: the header and the pixel bytes.
pub open spec fn spec_tga(input: Seq<u8>) -> Result<(Header, Seq<u8>), TgaError> {
    match spec_after_preamble(input) {
        Err(e) => Err(e),
        Ok(rest) => {
            let h = spec_header(input);
            let size = pixel_data_size(h);
            if h.image_type == 2 {
                if rest.len() < size {
                    Err(TgaError::PixelData)
                } else {
                    Ok((h, rest.take(size)))
                }
            } else if h.image_type == 10 {
                match spec_decode_rle(rest, size, (h.pixel_depth / 8) as nat, Seq::empty()) {
                    Ok((p, _)) => Ok((h, p)),
                    Err(e) => Err(e),
                }
            } else {
                Err(TgaError::UnsupportedImageType(h.image_type))
            }
        }
    }
}

impl View for Tga {
    type V = (Header, Seq<u8>);

    open spec fn view(&self) -> (Header, Seq<u8>) {
        (self.header, self.pixels@)
    }
}

/// A parse result taken by its view.
pub open spec fn tga_result_view(r: Result<Tga, TgaError>) -> Result<(Header, Seq<u8>), TgaError> {
    match r {
        Ok(t) => Ok(t@),
        Err(e) => Err(e),
    }
}

/// Whether bit 5 of the image descriptor puts the origin at the top-left.
pub open spec fn spec_is_top_origin(h: Header) -> bool {
    h.image_descriptor & 0x20 != 0
}

/// The source row that holds display row `y` (rows count from the top).
pub open spec fn source_row(h: Header, y: int) -> int {
    if spec_is_top_origin(h) { y } else { h.height - 1 - y }
}

/// Byte offset of pixel `(x, y)` (top-left origin) in the pixel data.
pub open spec fn pixel_offset(h: Header, x: int, y: int) -> int {
    (source_row(h, y) * h.width + x) * (h.pixel_depth as int / 8)
}

/// The RGBA bytes of pixel `(x, y)`: TGA stores BGR(A); a pixel without an
/// alpha byte is opaque.
pub open spec fn spec_rgba(h: Header, p: Seq<u8>, x: int, y: int) -> Seq<u8> {
    let i = pixel_offset(h, x, y);
    seq![p[i + 2], p[i + 1], p[i], if h.pixel_depth as int / 8 >= 4 { p[i + 3] } else { 255u8 }]
}

/// Whether every pixel of the `width × height` image can be read from `p`:
/// the last pixel's blue..red (and alpha, at 4+ bytes per pixel) bytes exist.
pub open spec fn pixels_readable(h: Header, p: Seq<u8>) -> bool {
    let bpp = h.pixel_depth as int / 8;
    h.width as int * h.height as int == 0 || (h.width as int * h.height as int - 1) * bpp + (if bpp
        >= 4 { 3int } else { 2int }) < p.len()
}

/// The RGBA image: pixel `(x, y)` of the `width × height` image, rows from the
/// top, at bytes `4 * (y * width + x) ..+ 4`.
pub open spec fn spec_to_rgba(h: Header, p: Seq<u8>) -> Seq<u8> {
    let w = h.width as int;
    Seq::new(
        (w * h.height as int * 4) as nat,
        |i: int| spec_rgba(h, p, (i / 4) % w, (i / 4) / w)[i % 4],
    )
}

/// Whether `get_pixel(x, y)` can read its pixel: the source row exists and the
/// pixel's bytes lie inside `p`.
pub open spec fn pixel_readable(h: Header, p: Seq<u8>, x: int, y: int) -> bool {
    let i = pixel_offset(h, x, y);
    &&& spec_is_top_origin(h) || y < h.height
    &&& i + 2 < p.len()
    &&& h.pixel_depth as int / 8 >= 4 ==> i + 3 < p.len()
}

proof fn lemma_pixel_in_range(h: Header, p: Seq<u8>, x: int, y: int)
    requires
        pixels_readable(h, p),
        0 <= x < h.width,
        0 <= y < h.height,
    ensures
        0 <= source_row(h, y) * h.width + x < h.width as int * h.height as int,
        0 <= pixel_offset(h, x, y),
        pixel_readable(h, p, x, y),
{
    let w = h.width as int;
    let hh = h.height as int;
    let sy = source_row(h, y);
    let bpp = h.pixel_depth as int / 8;
    assert(0 <= sy < hh);
    assert(0 <= sy * w + x <= w * hh - 1) by (nonlinear_arith)
        requires
            0 <= sy < hh,
            0 <= x < w,
    ;
    assert(0 <= (sy * w + x) * bpp <= (w * hh - 1) * bpp) by (nonlinear_arith)
        requires
            0 <= sy * w + x <= w * hh - 1,
            0 <= bpp,
    ;
}

/// The origin is bit 5 of the image descriptor alone, whatever its other
/// bits (the alpha depth in bits 0 to 3) hold: with bit 5 clear, TGA's
/// default bottom-left origin, display row `y` (counted from the top) is
/// stored row `height - 1 - y`; with it set, stored row `y`.
pub proof fn lemma_origin_is_bit_5(h: Header, x: int, y: int)
    ensures
        spec_is_top_origin(h) == ((h.image_descriptor >> 5u8) & 1u8 == 1u8),
        (h.image_descriptor >> 5u8) & 1u8 == 0u8 ==> pixel_offset(h, x, y) == ((h.height - 1 - y) * h.width + x) * (
        h.pixel_depth as int / 8),
        (h.image_descriptor >> 5u8) & 1u8 == 1u8 ==> pixel_offset(h, x, y) == (y * h.width + x) * (h.pixel_depth as int
            / 8),
{
    let d = h.image_descriptor;
    assert((d & 0x20 != 0) == ((d >> 5u8) & 1u8 == 1u8)) by (bit_vector);
    assert(((d >> 5u8) & 1u8 == 1u8) || ((d >> 5u8) & 1u8 == 0u8)) by (bit_vector);
}

/// Two headers whose descriptors agree on bit 5 read every pixel from the
/// same place: the other descriptor bits do not move the origin.
pub proof fn lemma_origin_ignores_other_bits(h1: Header, h2: Header, p: Seq<u8>, x: int, y: int)
    requires
        h1.width == h2.width,
        h1.height == h2.height,
        h1.pixel_depth == h2.pixel_depth,
        h1.image_descriptor & 0x20u8 == h2.image_descriptor & 0x20u8,
    ensures
        spec_is_top_origin(h1) == spec_is_top_origin(h2),
        pixel_offset(h1, x, y) == pixel_offset(h2, x, y),
        spec_rgba(h1, p, x, y) == spec_rgba(h2, p, x, y),
{
    let a = h1.image_descriptor;
    let b = h2.image_descriptor;
    assert(a & 0x20u8 == b & 0x20u8 ==> ((a & 0x20 != 0) == (b & 0x20 != 0))) by (bit_vector);
}

/// Every pixel of [`Tga::to_rgba`]'s image is the one [`Tga::get_pixel`]
/// reads at the same coordinates.
pub proof fn lemma_to_rgba_is_get_pixel(h: Header, p: Seq<u8>, x: int, y: int, k: int)
    requires
        0 <= x < h.width,
        0 <= y < h.height,
        0 <= k < 4,
    ensures
        0 <= (y * h.width + x) * 4 + k < spec_to_rgba(h, p).len(),
        spec_to_rgba(h, p)[(y * h.width + x) * 4 + k] == spec_rgba(h, p, x, y)[k],
{
    let w = h.width as int;
    let i = (y * w + x) * 4 + k;
    lemma_index_coords(w, h.height as int, x, y, k);
}

proof fn lemma_index_coords(w: int, hh: int, x: int, y: int, k: int)
    requires
        0 <= x < w,
        0 <= y < hh,
        0 <= k < 4,
    ensures
        0 <= (y * w + x) * 4 + k < w * hh * 4,
        ((y * w + x) * 4 + k) / 4 == y * w + x,
        ((y * w + x) * 4 + k) % 4 == k,
        (y * w + x) % w == x,
        (y * w + x) / w == y,
{
    let i = (y * w + x) * 4 + k;
    assert(0 <= y * w + x < w * hh) by (nonlinear_arith)
        requires
            0 <= x < w,
            0 <= y < hh,
    ;
    assert(0 <= i < w * hh * 4) by (nonlinear_arith)
        requires
            0 <= y * w + x < w * hh,
            i == (y * w + x) * 4 + k,
            0 <= k < 4,
    ;
    vstd::arithmetic::div_mod::lemma_fundamental_div_mod_converse(i, 4, y * w + x, k);
    vstd::arithmetic::div_mod::lemma_fundamental_div_mod_converse(y * w + x, w, y, x);
}

// ── parsing ───────────────────────────────────────────────────────────────────

impl Tga {
    /// Parse a TGA image from bytes.
    pub fn parse(input: &[u8]) -> (r: Result<Self, TgaError>)
        ensures
            tga_result_view(r) == spec_tga(input@),
    {
        let mut inp = input;
        let header = Header::parse(&mut inp)?;
        assert(inp@ == input@.skip(18));
        // Skip image ID if present
        if header.id_length > 0 {
            match take_bytes(&mut inp, header.id_length as usize) {
                Ok(_) => {},
                Err(_) => return Err(TgaError::ImageId),
            }
        }
        // Skip color map if present
        if header.color_map_type != 0 {
            let len = header.color_map_length as usize;
            let entry = header.color_map_entry_size as usize / 8;
            assert(len * entry <= 65535 * 31) by (nonlinear_arith)
                requires
                    len <= 65535,
                    entry <= 31,
            ;
            let color_map_size = len * entry;
            match take_bytes(&mut inp, color_map_size) {
                Ok(_) => {},
                Err(_) => return Err(TgaError::ColorMap),
            }
        }
        assert(spec_after_preamble(input@) == Ok::<Seq<u8>, TgaError>(inp@));
        // Read pixel data
        let bytes_per_pixel = header.pixel_depth as usize / 8;
        let w = header.width as u64;
        let h = header.height as u64;
        assert(w * h <= 65535 * 65535) by (nonlinear_arith)
            requires
                w <= 65535,
                h <= 65535,
        ;
        assert(w * h * (bytes_per_pixel as u64) <= 65535 * 65535 * 31) by (nonlinear_arith)
            requires
                w * h <= 65535 * 65535,
                bytes_per_pixel <= 31,
        ;
        let pixel_data_size: u64 = w * h * bytes_per_pixel as u64;
        if header.image_type == 2 {
            // Uncompressed true-color
            if pixel_data_size > inp.len() as u64 {
                return Err(TgaError::PixelData);
            }
            let pixels = match take_bytes(&mut inp, pixel_data_size as usize) {
                Ok(p) => p,
                Err(_) => return Err(TgaError::PixelData),
            };
            let mut v: Vec<u8> = Vec::new();
            append_bytes(&mut v, pixels);
            assert(v@ =~= pixels@);
            Ok(Tga { header, pixels: v })
        } else if header.image_type == 10 {
            // RLE compressed true-color
            let pixels = Self::decode_rle(&mut inp, pixel_data_size, bytes_per_pixel)?;
            Ok(Tga { header, pixels })
        } else {
            Err(TgaError::UnsupportedImageType(header.image_type))
        }
    }

    /// Decode RLE compressed pixel data.
    fn decode_rle(inp: &mut &[u8], expected_size: u64, bytes_per_pixel: usize) -> (r: Result<
        Vec<u8>,
        TgaError,
    >)
        requires
            bytes_per_pixel <= 31,
        ensures
            match (r, spec_decode_rle(
                old(inp)@,
                expected_size as int,
                bytes_per_pixel as nat,
                Seq::empty(),
            )) {
                (Ok(p), Ok((q, rest))) => p@ == q && final(inp)@ == rest,
                (Err(e), Err(f)) => e == f,
                _ => false,
            },
    {
        let mut pixels: Vec<u8> = Vec::new();
        let ghost bpp = bytes_per_pixel as nat;
        while (pixels.len() as u64) < expected_size
            invariant
                bytes_per_pixel <= 31,
                bpp == bytes_per_pixel as nat,
                spec_decode_rle(old(inp)@, expected_size as int, bpp, Seq::empty())
                    == spec_decode_rle(inp@, expected_size as int, bpp, pixels@),
            decreases inp@.len(),
        {
            let ghost before = inp@;
            let packet_header = match take_u8(inp) {
                Ok(b) => b,
                Err(_) => return Err(TgaError::RlePacket),
            };
            let count = (packet_header & 0x7F) as usize + 1;
            assert(packet_header & 0x7F <= 127) by (bit_vector);
            if packet_header & 0x80 != 0 {
                // RLE packet: single pixel repeated
                let pixel = match take_bytes(inp, bytes_per_pixel) {
                    Ok(p) => p,
                    Err(_) => return Err(TgaError::PixelData),
                };
                let ghost start = pixels@;
                let mut i: usize = 0;
                while i < count
                    invariant
                        i <= count,
                        pixels@ == start + repeat_bytes(pixel@, i as nat),
                    decreases count - i,
                {
                    append_bytes(&mut pixels, pixel);
                    i = i + 1;
                    assert(pixels@ =~= start + repeat_bytes(pixel@, i as nat));
                }
            } else {
                // Raw packet: sequence of pixels
                assert(count * bytes_per_pixel <= 128 * 31) by (nonlinear_arith)
                    requires
                        count <= 128,
                        bytes_per_pixel <= 31,
                ;
                let data = match take_bytes(inp, count * bytes_per_pixel) {
                    Ok(d) => d,
                    Err(_) => return Err(TgaError::PixelData),
                };
                append_bytes(&mut pixels, data);
            }
            assert(before.skip(1).skip(bpp as int) =~= inp@ || packet_header & 0x80 == 0);
        }
        Ok(pixels)
    }

    /// Get the width of the image.
    pub fn width(&self) -> (r: u32)
        ensures
            r == self.header.width,
    {
        self.header.width as u32
    }

    /// Get the height of the image.
    pub fn height(&self) -> (r: u32)
        ensures
            r == self.header.height,
    {
        self.header.height as u32
    }

    /// Get the number of bytes per pixel.
    pub fn bytes_per_pixel(&self) -> (r: usize)
        ensures
            r == self.header.pixel_depth / 8,
    {
        self.header.pixel_depth as usize / 8
    }

    /// Get pixel data as RGBA, converting from TGA's native format.
    /// Returns data in top-to-bottom row order regardless of original origin.
    pub fn to_rgba(&self) -> (r: Vec<u8>)
        requires
            pixels_readable(self.header, self.pixels@),
        ensures
            r@ == spec_to_rgba(self.header, self.pixels@),
    {
        let width = self.header.width as usize;
        let height = self.header.height as usize;
        let bpp = self.bytes_per_pixel();
        let top = self.is_top_origin();
        let ghost h = self.header;
        let ghost p = self.pixels@;
        let ghost spec = spec_to_rgba(h, p);
        let mut rgba: Vec<u8> = Vec::new();
        let mut y: usize = 0;
        while y < height
            invariant
                width == h.width,
                height == h.height,
                bpp == h.pixel_depth / 8,
                top == spec_is_top_origin(h),
                h == self.header,
                p == self.pixels@,
                spec == spec_to_rgba(h, p),
                pixels_readable(h, p),
                y <= height,
                rgba@ =~= spec.take(y * width * 4),
            decreases height - y,
        {
            // Handle origin: TGA default is bottom-left
            let src_y = if top { y } else { height - 1 - y };
            let mut x: usize = 0;
            while x < width
                invariant
                    width == h.width,
                    height == h.height,
                    bpp == h.pixel_depth / 8,
                    h == self.header,
                    p == self.pixels@,
                    spec == spec_to_rgba(h, p),
                    pixels_readable(h, p),
                    y < height,
                    src_y == source_row(h, y as int),
                    x <= width,
                    rgba@ =~= spec.take((y * width + x) * 4),
                decreases width - x,
            {
                proof {
                    lemma_pixel_in_range(h, p, x as int, y as int);
                }
                assert(width * height <= 0xffff * 0xffff) by (nonlinear_arith)
                    requires
                        width <= 0xffff,
                        height <= 0xffff,
                ;
                assert(self.pixels@.len() == self.pixels.len());
                let src_idx = (src_y * width + x) * bpp;
                // TGA stores BGR(A), convert to RGBA
                let r = self.pixels[src_idx + 2];
                let g = self.pixels[src_idx + 1];
                let b = self.pixels[src_idx];
                let a = if bpp >= 4 { self.pixels[src_idx + 3] } else { 255 };
                let ghost before = rgba@;
                rgba.push(r);
                rgba.push(g);
                rgba.push(b);
                rgba.push(a);
                proof {
                    let base = (y * width + x) * 4;
                    assert forall|k: int| 0 <= k < 4 implies #[trigger] spec[base + k] == spec_rgba(
                        h,
                        p,
                        x as int,
                        y as int,
                    )[k] by {
                        lemma_to_rgba_is_get_pixel(h, p, x as int, y as int, k);
                    }
                    lemma_index_coords(width as int, height as int, x as int, y as int, 3);
                    assert(rgba@ =~= spec.take((y * width + x + 1) * 4));
                }
                x = x + 1;
            }
            assert((y * width + width) * 4 == (y + 1) * width * 4) by (nonlinear_arith);
            y = y + 1;
        }
        assert(spec.len() == height * width * 4) by (nonlinear_arith)
            requires
                spec.len() == width * height * 4,
        ;
        rgba
    }

    /// Get a pixel value at (x, y) as [R, G, B, A].
    /// Coordinates are in standard top-left origin.
    pub fn get_pixel(&self, x: u32, y: u32) -> (r: [u8; 4])
        requires
            pixel_readable(self.header, self.pixels@, x as int, y as int),
        ensures
            r@ == spec_rgba(self.header, self.pixels@, x as int, y as int),
    {
        let width = self.header.width as u64;
        let height = self.header.height as u64;
        let bpp = self.bytes_per_pixel() as u64;
        let x = x as u64;
        let y = y as u64;
        // Handle origin: TGA default is bottom-left
        let src_y = if self.is_top_origin() { y } else { height - 1 - y };
        assert(src_y * width + x <= 0xffff_ffff * 0xffff + 0xffff_ffff) by (nonlinear_arith)
            requires
                src_y <= 0xffff_ffff,
                width <= 0xffff,
                x <= 0xffff_ffff,
        ;
        assert((src_y * width + x) * bpp <= (0xffff_ffff * 0xffff + 0xffff_ffff) * 31) by (nonlinear_arith)
            requires
                src_y * width + x <= 0xffff_ffff * 0xffff + 0xffff_ffff,
                bpp <= 31,
        ;
        assert((src_y * width + x) * bpp == pixel_offset(self.header, x as int, y as int));
        assert(self.pixels@.len() == self.pixels.len());
        let idx = ((src_y * width + x) * bpp) as usize;
        // TGA stores BGR(A), convert to RGBA
        let out = [
            self.pixels[idx + 2],
            self.pixels[idx + 1],
            self.pixels[idx],
            if bpp >= 4 { self.pixels[idx + 3] } else { 255 },
        ];
        assert(out@ =~= spec_rgba(self.header, self.pixels@, x as int, y as int));
        out
    }

    /// Check if the image origin is at the top-left (vs bottom-left).
    pub fn is_top_origin(&self) -> (r: bool)
        ensures
            r == spec_is_top_origin(self.header),
    {
        (self.header.image_descriptor & 0x20) != 0
    }
}

impl Header {
    pub const BYTE_SIZE: usize = 18;

    pub fn parse(inp: &mut &[u8]) -> (r: Result<Self, TgaError>)
        ensures
            old(inp)@.len() >= 18 ==> r == Ok::<Header, TgaError>(spec_header(old(inp)@)),
            old(inp)@.len() < 18 ==> r == Err::<Header, TgaError>(TgaError::Header),
            final(inp)@ == old(inp)@.skip(header_consumed(old(inp)@.len() as int)),
    {
        let ghost b = inp@;
        let id_length = match take_u8(inp) { Ok(v) => v, Err(_) => return Err(TgaError::Header) };
        let color_map_type = match take_u8(inp) { Ok(v) => v, Err(_) => return Err(TgaError::Header) };
        let image_type = match take_u8(inp) { Ok(v) => v, Err(_) => return Err(TgaError::Header) };
        assert(inp@ == b.skip(3));
        let color_map_first_index = match take_u16(inp) { Ok(v) => v, Err(_) => return Err(TgaError::Header) };
        let color_map_length = match take_u16(inp) { Ok(v) => v, Err(_) => return Err(TgaError::Header) };
        assert(inp@ =~= b.skip(7));
        let color_map_entry_size = match take_u8(inp) { Ok(v) => v, Err(_) => return Err(TgaError::Header) };
        let x_origin = match take_u16(inp) { Ok(v) => v, Err(_) => return Err(TgaError::Header) };
        assert(inp@ =~= b.skip(10));
        let y_origin = match take_u16(inp) { Ok(v) => v, Err(_) => return Err(TgaError::Header) };
        assert(inp@ =~= b.skip(12));
        let width = match take_u16(inp) { Ok(v) => v, Err(_) => return Err(TgaError::Header) };
        assert(inp@ =~= b.skip(14));
        let height = match take_u16(inp) { Ok(v) => v, Err(_) => return Err(TgaError::Header) };
        assert(inp@ =~= b.skip(16));
        let pixel_depth = match take_u8(inp) { Ok(v) => v, Err(_) => return Err(TgaError::Header) };
        let image_descriptor = match take_u8(inp) { Ok(v) => v, Err(_) => return Err(TgaError::Header) };
        assert(inp@ =~= b.skip(18));
        assert(b.skip(3) =~= b.skip(3) && b.skip(5) =~= b.skip(3).skip(2));
        Ok(Header {
            id_length,
            color_map_type,
            image_type,
            color_map_first_index,
            color_map_length,
            color_map_entry_size,
            x_origin,
            y_origin,
            width,
            height,
            pixel_depth,
            image_descriptor,
        })
    }
}

} // verus!
