//! Fable's `.wad` archives: a 32-byte [`Header`] (the rest of the first
//! block is zero padding), then each asset's content padded up to
//! `block_size`, then the asset metadata table at the end.

use vstd::prelude::*;
use vstd::utf8::valid_utf8;

use vstd::string::StringSliceAdditionalSpecFns;
use vstd::utf8::encode_utf8;

use crate::bytes::{
    lemma_u32_le, lemma_u32s_le, lemma_u32s_le_bytes_len, put_bytes, put_u32, put_u32s, splice,
    take_bytes, take_u32, take_u32s, u32_le, u32_le_bytes, u32s_le, u32s_le_bytes,
    UnexpectedEnd, str_eq, append_bytes, append_zeros, str_from_utf8,
};

verus! {

// ── header ────────────────────────────────────────────────────────────────────

#[derive(Debug, Copy, Clone)]
pub struct Header {
    pub magic: [u8; 4],
    pub version: [u32; 3],
    pub block_size: u32,
    pub asset_count: u32,
    pub asset_count_2: u32,
    pub asset_table_position: u32,
}

#[derive(Copy, Clone, Debug, PartialEq, Eq, Structural)]
pub enum HeaderError {
    Magic,
    Version,
    BlockSize,
    AssetCount,
    AssetCount2,
    AssetTablePosition,
}

/// Whether `h` is the header that the first 32 bytes of `b` encode.
pub open spec fn header_from_bytes(h: Header, b: Seq<u8>) -> bool {
    &&& h.magic@ == b.take(4)
    &&& h.version@ == seq![u32_le(b.skip(4)), u32_le(b.skip(8)), u32_le(b.skip(12))]
    &&& h.block_size == u32_le(b.skip(16))
    &&& h.asset_count == u32_le(b.skip(20))
    &&& h.asset_count_2 == u32_le(b.skip(24))
    &&& h.asset_table_position == u32_le(b.skip(28))
}

/// The 32-byte encoding of `h`.
pub open spec fn header_bytes(h: Header) -> Seq<u8> {
    h.magic@ + u32_le_bytes(h.version[0]) + u32_le_bytes(h.version[1]) + u32_le_bytes(h.version[2])
        + u32_le_bytes(h.block_size) + u32_le_bytes(h.asset_count) + u32_le_bytes(h.asset_count_2)
        + u32_le_bytes(h.asset_table_position)
}

/// The header field that does not fit in `len` bytes (the first one that
/// runs past the end).
pub open spec fn header_error_at(len: int) -> HeaderError {
    if len < 4 {
        HeaderError::Magic
    } else if len < 16 {
        HeaderError::Version
    } else if len < 20 {
        HeaderError::BlockSize
    } else if len < 24 {
        HeaderError::AssetCount
    } else if len < 28 {
        HeaderError::AssetCount2
    } else {
        HeaderError::AssetTablePosition
    }
}

/// The bytes taken (or written) before the field named by
/// [`header_error_at`]: every field that fits in `len` bytes.
pub open spec fn header_prefix(len: int) -> int {
    if len < 4 {
        0
    } else if len < 16 {
        4
    } else if len < 20 {
        16
    } else if len < 24 {
        20
    } else if len < 28 {
        24
    } else if len < 32 {
        28
    } else {
        32
    }
}

proof fn lemma_header_bytes_len(h: Header)
    ensures
        header_bytes(h).len() == 32,
{
}

/// Encoding a header and decoding the bytes gives back a header with the same
/// fields.
pub proof fn lemma_header_parse_serialize(h: Header, rest: Seq<u8>)
    ensures
        header_from_bytes(h, header_bytes(h) + rest),
{
    let b = header_bytes(h) + rest;
    crate::bytes::lemma_u32_le(h.version[0], Seq::empty());
    crate::bytes::lemma_u32_le(h.version[1], Seq::empty());
    crate::bytes::lemma_u32_le(h.version[2], Seq::empty());
    crate::bytes::lemma_u32_le(h.block_size, Seq::empty());
    crate::bytes::lemma_u32_le(h.asset_count, Seq::empty());
    crate::bytes::lemma_u32_le(h.asset_count_2, Seq::empty());
    crate::bytes::lemma_u32_le(h.asset_table_position, Seq::empty());
    assert(b.take(4) =~= h.magic@);
    assert(b.skip(4).take(4) =~= u32_le_bytes(h.version[0]));
    assert(b.skip(8).take(4) =~= u32_le_bytes(h.version[1]));
    assert(b.skip(12).take(4) =~= u32_le_bytes(h.version[2]));
    assert(b.skip(16).take(4) =~= u32_le_bytes(h.block_size));
    assert(b.skip(20).take(4) =~= u32_le_bytes(h.asset_count));
    assert(b.skip(24).take(4) =~= u32_le_bytes(h.asset_count_2));
    assert(b.skip(28).take(4) =~= u32_le_bytes(h.asset_table_position));
    lemma_u32_le_prefix(b.skip(4));
    lemma_u32_le_prefix(b.skip(8));
    lemma_u32_le_prefix(b.skip(12));
    lemma_u32_le_prefix(b.skip(16));
    lemma_u32_le_prefix(b.skip(20));
    lemma_u32_le_prefix(b.skip(24));
    lemma_u32_le_prefix(b.skip(28));
    assert(h.version@ =~= seq![h.version[0], h.version[1], h.version[2]]);
}

proof fn lemma_u32_le_prefix(b: Seq<u8>)
    requires
        b.len() >= 4,
    ensures
        u32_le(b) == u32_le(b.take(4)),
{
}

/// Decoding a header from bytes and encoding it again gives back those bytes.
pub proof fn lemma_header_serialize_parse(h: Header, b: Seq<u8>)
    requires
        b.len() >= 32,
        header_from_bytes(h, b),
    ensures
        header_bytes(h) == b.take(32),
{
    crate::bytes::lemma_u32_le(0, b.skip(4).take(4));
    crate::bytes::lemma_u32_le(0, b.skip(8).take(4));
    crate::bytes::lemma_u32_le(0, b.skip(12).take(4));
    crate::bytes::lemma_u32_le(0, b.skip(16).take(4));
    crate::bytes::lemma_u32_le(0, b.skip(20).take(4));
    crate::bytes::lemma_u32_le(0, b.skip(24).take(4));
    crate::bytes::lemma_u32_le(0, b.skip(28).take(4));
    lemma_u32_le_prefix(b.skip(4));
    lemma_u32_le_prefix(b.skip(8));
    lemma_u32_le_prefix(b.skip(12));
    lemma_u32_le_prefix(b.skip(16));
    lemma_u32_le_prefix(b.skip(20));
    lemma_u32_le_prefix(b.skip(24));
    lemma_u32_le_prefix(b.skip(28));
    assert(h.version[0] == h.version@[0]);
    assert(header_bytes(h) =~= b.take(32));
}

impl Header {
    pub const BYTE_SIZE: usize = 32;

    /// File signature found at the start of every `.wad` file.
    pub const MAGIC: [u8; 4] = [0x42, 0x42, 0x42, 0x42];

    pub fn parse(inp: &mut &[u8]) -> (r: Result<Self, HeaderError>)
        ensures
            old(inp)@.len() >= 32 ==> (r matches Ok(h) && header_from_bytes(h, old(inp)@)),
            old(inp)@.len() < 32 ==> r == Err::<Header, HeaderError>(
                header_error_at(old(inp)@.len() as int),
            ),
            final(inp)@ == old(inp)@.skip(header_prefix(old(inp)@.len() as int)),
    {
        let ghost b = inp@;
        let m = match take_bytes(inp, 4) {
            Ok(m) => m,
            Err(_) => return Err(HeaderError::Magic),
        };
        let magic = [m[0], m[1], m[2], m[3]];
        if inp.len() < 12 {
            return Err(HeaderError::Version);
        }
        let v0 = match take_u32(inp) { Ok(v) => v, Err(_) => return Err(HeaderError::Version) };
        let v1 = match take_u32(inp) { Ok(v) => v, Err(_) => return Err(HeaderError::Version) };
        let v2 = match take_u32(inp) { Ok(v) => v, Err(_) => return Err(HeaderError::Version) };
        let version = [v0, v1, v2];
        assert(inp@ =~= b.skip(16));
        let block_size = match take_u32(inp) { Ok(v) => v, Err(_) => return Err(HeaderError::BlockSize) };
        let asset_count = match take_u32(inp) { Ok(v) => v, Err(_) => return Err(HeaderError::AssetCount) };
        assert(inp@ =~= b.skip(24));
        let asset_count_2 = match take_u32(inp) { Ok(v) => v, Err(_) => return Err(HeaderError::AssetCount2) };
        let asset_table_position = match take_u32(inp) { Ok(v) => v, Err(_) => return Err(HeaderError::AssetTablePosition) };
        assert(inp@ =~= b.skip(32));
        assert(magic@ =~= b.take(4));
        assert(b.skip(4).skip(4) =~= b.skip(8));
        assert(b.skip(8).skip(4) =~= b.skip(12));
        assert(b.skip(16).skip(4) =~= b.skip(20));
        assert(b.skip(24).skip(4) =~= b.skip(28));
        assert(version@ =~= seq![u32_le(b.skip(4)), u32_le(b.skip(8)), u32_le(b.skip(12))]);
        Ok(Header { magic, version, block_size, asset_count, asset_count_2, asset_table_position })
    }

    /// Writes the 32-byte encoding at `*pos`, advancing `*pos`. When the
    /// buffer runs out, the fields that fit are written and the first field
    /// that does not is the error.
    pub fn serialize(&self, out: &mut Vec<u8>, pos: &mut usize) -> (r: Result<(), HeaderError>)
        requires
            *old(pos) <= old(out)@.len(),
        ensures
            ({
                let room = old(out)@.len() - *old(pos);
                let n = header_prefix(room);
                &&& final(out)@ == splice(old(out)@, *old(pos) as int, header_bytes(*self).take(n))
                &&& *final(pos) == *old(pos) + n
                &&& room >= 32 ==> r is Ok
                &&& room < 32 ==> r == Err::<(), HeaderError>(header_error_at(room))
            }),
    {
        let ghost o = out@;
        let ghost p0 = *pos as int;
        let ghost hb = header_bytes(*self);
        proof {
            lemma_header_bytes_len(*self);
            assert(splice(o, p0, hb.take(0)) =~= o);
        }
        match put_bytes(out, pos, self.magic.as_slice()) {
            Ok(()) => {},
            Err(_) => return Err(HeaderError::Magic),
        }
        assert(out@ =~= splice(o, p0, hb.take(4)));
        if out.len() - *pos < 12 {
            return Err(HeaderError::Version);
        }
        let _ = put_u32(out, pos, self.version[0]);
        let _ = put_u32(out, pos, self.version[1]);
        let _ = put_u32(out, pos, self.version[2]);
        assert(out@ =~= splice(o, p0, hb.take(16)));
        match put_u32(out, pos, self.block_size) {
            Ok(()) => {},
            Err(_) => return Err(HeaderError::BlockSize),
        }
        assert(out@ =~= splice(o, p0, hb.take(20)));
        match put_u32(out, pos, self.asset_count) {
            Ok(()) => {},
            Err(_) => return Err(HeaderError::AssetCount),
        }
        assert(out@ =~= splice(o, p0, hb.take(24)));
        match put_u32(out, pos, self.asset_count_2) {
            Ok(()) => {},
            Err(_) => return Err(HeaderError::AssetCount2),
        }
        assert(out@ =~= splice(o, p0, hb.take(28)));
        match put_u32(out, pos, self.asset_table_position) {
            Ok(()) => {},
            Err(_) => return Err(HeaderError::AssetTablePosition),
        }
        assert(out@ =~= splice(o, p0, hb.take(32)));
        Ok(())
    }
}

// ── asset metadata ────────────────────────────────────────────────────────────

/// One entry of the asset table. The path is the asset's backslash-delimited
/// in-game path (e.g. `"Data\\Levels\\FinalAlbion\\FinalAlbion.lev"`).
#[derive(Debug, Clone)]
pub struct AssetMetadataRef {
    pub unknown_1: [u8; 16],
    pub id: u32,
    pub unknown_2: u32,
    pub content_length: u32,
    pub content_position: u32,
    pub unknown_3: u32,
    pub path: String,
    pub unknown_4: [u8; 16],
    pub created: [u32; 7],
    pub accessed: [u32; 7],
    pub modified: [u32; 5],
}

pub type AssetMetadata = AssetMetadataRef;

#[derive(Copy, Clone, Debug, PartialEq, Eq, Structural)]
pub enum AssetMetadataError {
    Unknown1,
    Id,
    Unknown2,
    ContentPosition,
    ContentLength,
    Unknown3,
    PathLen,
    Path,
    PathToString,
    Unknown4,
    Created,
    Accessed,
    Modified,
}

/// The UTF-8 bytes of the asset's path.
pub open spec fn path_bytes(a: AssetMetadataRef) -> Seq<u8> {
    encode_utf8(a.path@)
}

/// The length the path field announces, read from the bytes at offset 36.
pub open spec fn announced_path_len(b: Seq<u8>) -> int {
    u32_le(b.skip(36)) as int
}

/// Whether `a` is the entry that the front of `b` encodes.
pub open spec fn asset_from_bytes(a: AssetMetadataRef, b: Seq<u8>) -> bool {
    let l = announced_path_len(b);
    &&& a.unknown_1@ == b.take(16)
    &&& a.id == u32_le(b.skip(16))
    &&& a.unknown_2 == u32_le(b.skip(20))
    &&& a.content_length == u32_le(b.skip(24))
    &&& a.content_position == u32_le(b.skip(28))
    &&& a.unknown_3 == u32_le(b.skip(32))
    &&& path_bytes(a) == b.subrange(40, 40 + l)
    &&& a.unknown_4@ == b.subrange(40 + l, 56 + l)
    &&& a.created@ == u32s_le(b.skip(56 + l), 7)
    &&& a.accessed@ == u32s_le(b.skip(84 + l), 7)
    &&& a.modified@ == u32s_le(b.skip(112 + l), 5)
}

/// The error [`AssetMetadataRef::parse`] meets on `b`, or `None` when it
/// succeeds.
pub open spec fn asset_parse_error(b: Seq<u8>) -> Option<AssetMetadataError> {
    let n = b.len() as int;
    if n < 16 {
        Some(AssetMetadataError::Unknown1)
    } else if n < 20 {
        Some(AssetMetadataError::Id)
    } else if n < 24 {
        Some(AssetMetadataError::Unknown2)
    } else if n < 28 {
        Some(AssetMetadataError::ContentLength)
    } else if n < 32 {
        Some(AssetMetadataError::ContentPosition)
    } else if n < 36 {
        Some(AssetMetadataError::Unknown3)
    } else if n < 40 {
        Some(AssetMetadataError::PathLen)
    } else {
        let l = announced_path_len(b);
        if n < 40 + l {
            Some(AssetMetadataError::Path)
        } else if !valid_utf8(b.subrange(40, 40 + l)) {
            Some(AssetMetadataError::PathToString)
        } else if n < 56 + l {
            Some(AssetMetadataError::Unknown4)
        } else if n < 84 + l {
            Some(AssetMetadataError::Created)
        } else if n < 112 + l {
            Some(AssetMetadataError::Accessed)
        } else if n < 132 + l {
            Some(AssetMetadataError::Modified)
        } else {
            None
        }
    }
}

/// How many bytes [`AssetMetadataRef::parse`] takes from `b`: the whole entry,
/// or on failure every field before the failing one.
pub open spec fn asset_parse_consumed(b: Seq<u8>) -> int {
    let n = b.len() as int;
    if n < 16 {
        0
    } else if n < 20 {
        16
    } else if n < 24 {
        20
    } else if n < 28 {
        24
    } else if n < 32 {
        28
    } else if n < 36 {
        32
    } else if n < 40 {
        36
    } else {
        let l = announced_path_len(b);
        if n < 40 + l {
            40
        } else if n < 56 + l {
            40 + l
        } else if !valid_utf8(b.subrange(40, 40 + l)) {
            40 + l
        } else if n < 84 + l {
            56 + l
        } else if n < 112 + l {
            84 + l
        } else if n < 132 + l {
            112 + l
        } else {
            132 + l
        }
    }
}

/// The encoding of `a` in the asset table.
pub open spec fn asset_bytes(a: AssetMetadataRef) -> Seq<u8> {
    a.unknown_1@ + u32_le_bytes(a.id) + u32_le_bytes(a.unknown_2) + u32_le_bytes(a.content_length)
        + u32_le_bytes(a.content_position) + u32_le_bytes(a.unknown_3) + u32_le_bytes(
        path_bytes(a).len() as u32,
    ) + path_bytes(a) + a.unknown_4@ + u32s_le_bytes(a.created@) + u32s_le_bytes(a.accessed@)
        + u32s_le_bytes(a.modified@)
}

/// The error [`AssetMetadataRef::serialize`] meets with `room` bytes left in
/// the buffer and a path of `l` bytes, or `None` when it succeeds.
pub open spec fn asset_put_error(room: int, l: int) -> Option<AssetMetadataError> {
    if room < 16 {
        Some(AssetMetadataError::Unknown1)
    } else if room < 20 {
        Some(AssetMetadataError::Id)
    } else if room < 24 {
        Some(AssetMetadataError::Unknown2)
    } else if room < 28 {
        Some(AssetMetadataError::ContentLength)
    } else if room < 32 {
        Some(AssetMetadataError::ContentPosition)
    } else if room < 36 {
        Some(AssetMetadataError::Unknown3)
    } else if l > u32::MAX || room < 40 {
        Some(AssetMetadataError::PathLen)
    } else if room < 40 + l {
        Some(AssetMetadataError::Path)
    } else if room < 56 + l {
        Some(AssetMetadataError::Unknown4)
    } else if room < 84 + l {
        Some(AssetMetadataError::Created)
    } else if room < 112 + l {
        Some(AssetMetadataError::Accessed)
    } else if room < 132 + l {
        Some(AssetMetadataError::Modified)
    } else {
        None
    }
}

/// How many bytes [`AssetMetadataRef::serialize`] writes with `room` bytes
/// left and a path of `l` bytes.
pub open spec fn asset_put_prefix(room: int, l: int) -> int {
    if room < 16 {
        0
    } else if room < 20 {
        16
    } else if room < 24 {
        20
    } else if room < 28 {
        24
    } else if room < 32 {
        28
    } else if room < 36 {
        32
    } else if l > u32::MAX || room < 40 {
        36
    } else if room < 40 + l {
        40
    } else if room < 56 + l {
        40 + l
    } else if room < 84 + l {
        56 + l
    } else if room < 112 + l {
        84 + l
    } else if room < 132 + l {
        112 + l
    } else {
        132 + l
    }
}

proof fn lemma_asset_bytes_len(a: AssetMetadataRef)
    ensures
        asset_bytes(a).len() == 132 + path_bytes(a).len(),
{
    lemma_u32s_le_bytes_len(a.created@);
    lemma_u32s_le_bytes_len(a.accessed@);
    lemma_u32s_le_bytes_len(a.modified@);
}

/// Every entry encodes to `132` bytes plus its path.
pub proof fn lemma_asset_byte_size(a: AssetMetadataRef)
    ensures
        asset_bytes(a).len() == 132 + path_bytes(a).len(),
{
    lemma_asset_bytes_len(a);
}

/// Decoding the encoding of an entry gives back an entry with the same fields,
/// and takes exactly the encoding.
pub proof fn lemma_asset_parse_serialize(a: AssetMetadataRef, rest: Seq<u8>)
    requires
        path_bytes(a).len() <= u32::MAX,
    ensures
        asset_parse_error(asset_bytes(a) + rest) is None,
        asset_parse_consumed(asset_bytes(a) + rest) == asset_bytes(a).len(),
        asset_from_bytes(a, asset_bytes(a) + rest),
{
    let b = asset_bytes(a) + rest;
    let pb = path_bytes(a);
    let l = pb.len() as int;
    lemma_asset_bytes_len(a);
    lemma_u32s_le_bytes_len(a.created@);
    lemma_u32s_le_bytes_len(a.accessed@);
    lemma_u32s_le_bytes_len(a.modified@);
    lemma_u32_le(a.id, Seq::empty());
    lemma_u32_le(a.unknown_2, Seq::empty());
    lemma_u32_le(a.content_length, Seq::empty());
    lemma_u32_le(a.content_position, Seq::empty());
    lemma_u32_le(a.unknown_3, Seq::empty());
    lemma_u32_le(l as u32, Seq::empty());
    assert(b.skip(16).take(4) =~= u32_le_bytes(a.id));
    assert(b.skip(20).take(4) =~= u32_le_bytes(a.unknown_2));
    assert(b.skip(24).take(4) =~= u32_le_bytes(a.content_length));
    assert(b.skip(28).take(4) =~= u32_le_bytes(a.content_position));
    assert(b.skip(32).take(4) =~= u32_le_bytes(a.unknown_3));
    assert(b.skip(36).take(4) =~= u32_le_bytes(l as u32));
    lemma_u32_le_prefix(b.skip(16));
    lemma_u32_le_prefix(b.skip(20));
    lemma_u32_le_prefix(b.skip(24));
    lemma_u32_le_prefix(b.skip(28));
    lemma_u32_le_prefix(b.skip(32));
    lemma_u32_le_prefix(b.skip(36));
    assert(announced_path_len(b) == l);
    assert(b.take(16) =~= a.unknown_1@);
    assert(b.subrange(40, 40 + l) =~= pb);
    vstd::utf8::encode_utf8_valid_utf8(a.path@);
    assert(b.subrange(40 + l, 56 + l) =~= a.unknown_4@);
    let tail = b.skip(56 + l);
    assert(tail =~= u32s_le_bytes(a.created@) + (u32s_le_bytes(a.accessed@) + u32s_le_bytes(
        a.modified@) + rest));
    lemma_u32s_le(a.created@, u32s_le_bytes(a.accessed@) + u32s_le_bytes(a.modified@) + rest, Seq::empty(), 0);
    assert(b.skip(84 + l) =~= u32s_le_bytes(a.accessed@) + (u32s_le_bytes(a.modified@) + rest));
    lemma_u32s_le(a.accessed@, u32s_le_bytes(a.modified@) + rest, Seq::empty(), 0);
    assert(b.skip(112 + l) =~= u32s_le_bytes(a.modified@) + rest);
    lemma_u32s_le(a.modified@, rest, Seq::empty(), 0);
}

/// Decoding an entry and encoding it again gives back the bytes it was read
/// from.
pub proof fn lemma_asset_serialize_parse(a: AssetMetadataRef, b: Seq<u8>)
    requires
        asset_parse_error(b) is None,
        asset_from_bytes(a, b),
    ensures
        asset_bytes(a) == b.take(132 + announced_path_len(b)),
{
    let l = announced_path_len(b);
    lemma_u32_le(0, b.skip(16).take(4));
    lemma_u32_le(0, b.skip(20).take(4));
    lemma_u32_le(0, b.skip(24).take(4));
    lemma_u32_le(0, b.skip(28).take(4));
    lemma_u32_le(0, b.skip(32).take(4));
    lemma_u32_le(0, b.skip(36).take(4));
    lemma_u32_le_prefix(b.skip(16));
    lemma_u32_le_prefix(b.skip(20));
    lemma_u32_le_prefix(b.skip(24));
    lemma_u32_le_prefix(b.skip(28));
    lemma_u32_le_prefix(b.skip(32));
    lemma_u32_le_prefix(b.skip(36));
    lemma_u32s_le(Seq::empty(), Seq::empty(), b.skip(56 + l), 7);
    lemma_u32s_le(Seq::empty(), Seq::empty(), b.skip(84 + l), 7);
    lemma_u32s_le(Seq::empty(), Seq::empty(), b.skip(112 + l), 5);
    assert(path_bytes(a).len() == l);
    assert(asset_bytes(a) =~= b.take(132 + l));
}

/// Takes 16 raw bytes off the front of `cur` into an array.
fn take_array16(cur: &mut &[u8]) -> (r: Result<[u8; 16], UnexpectedEnd>)
    ensures
        old(cur)@.len() >= 16 ==> (r matches Ok(a) && a@ == old(cur)@.take(16) && final(cur)@
            == old(cur)@.skip(16)),
        old(cur)@.len() < 16 ==> r is Err && final(cur)@ == old(cur)@,
{
    let s = take_bytes(cur, 16)?;
    let a = [
        s[0], s[1], s[2], s[3], s[4], s[5], s[6], s[7],
        s[8], s[9], s[10], s[11], s[12], s[13], s[14], s[15],
    ];
    assert(a@ =~= s@);
    Ok(a)
}

/// The error met reading the fields after the path from `c`.
pub open spec fn asset_tail_error(c: Seq<u8>) -> Option<AssetMetadataError> {
    asset_tail_error_len(c.len() as int)
}

/// The error met on the fields after the path with `n` bytes available.
pub open spec fn asset_tail_error_len(n: int) -> Option<AssetMetadataError> {
    let c = Seq::<u8>::new(n as nat, |i: int| 0u8);
    if n < 16 {
        Some(AssetMetadataError::Unknown4)
    } else if c.len() < 44 {
        Some(AssetMetadataError::Created)
    } else if c.len() < 72 {
        Some(AssetMetadataError::Accessed)
    } else if c.len() < 92 {
        Some(AssetMetadataError::Modified)
    } else {
        None
    }
}

/// The bytes taken reading the fields after the path from `c`.
pub open spec fn asset_tail_consumed(c: Seq<u8>) -> int {
    asset_tail_consumed_len(c.len() as int)
}

/// The bytes taken (or written) on the fields after the path with `n` bytes
/// available.
pub open spec fn asset_tail_consumed_len(n: int) -> int {
    let c = Seq::<u8>::new(n as nat, |i: int| 0u8);
    if n < 16 {
        0
    } else if c.len() < 44 {
        16
    } else if c.len() < 72 {
        44
    } else if c.len() < 92 {
        72
    } else {
        92
    }
}

impl AssetMetadataRef {
    /// Reads the fields that follow the path.
    fn parse_tail(inp: &mut &[u8]) -> (r: Result<
        ([u8; 16], [u32; 7], [u32; 7], [u32; 5]),
        AssetMetadataError,
    >)
        ensures
            asset_tail_error(old(inp)@) is None ==> (r matches Ok((u4, c, a, m)) && u4@ == old(
                inp,
            )@.take(16) && c@ == u32s_le(old(inp)@.skip(16), 7) && a@ == u32s_le(
                old(inp)@.skip(44),
                7,
            ) && m@ == u32s_le(old(inp)@.skip(72), 5)),
            asset_tail_error(old(inp)@) matches Some(e) ==> r == Err::<
                ([u8; 16], [u32; 7], [u32; 7], [u32; 5]),
                AssetMetadataError,
            >(e),
            final(inp)@ == old(inp)@.skip(asset_tail_consumed(old(inp)@)),
    {
        let ghost c = inp@;
        let unknown_4 = match take_array16(inp) {
            Ok(v) => v,
            Err(_) => return Err(AssetMetadataError::Unknown4),
        };
        let created = match take_u32s(inp, 7) {
            Ok(v) => v,
            Err(_) => return Err(AssetMetadataError::Created),
        };
        assert(inp@ =~= c.skip(44));
        let accessed = match take_u32s(inp, 7) {
            Ok(v) => v,
            Err(_) => return Err(AssetMetadataError::Accessed),
        };
        assert(inp@ =~= c.skip(72));
        let modified = match take_u32s(inp, 5) {
            Ok(v) => v,
            Err(_) => return Err(AssetMetadataError::Modified),
        };
        assert(inp@ =~= c.skip(92));
        let created = [created[0], created[1], created[2], created[3], created[4], created[5], created[6]];
        let accessed = [accessed[0], accessed[1], accessed[2], accessed[3], accessed[4], accessed[5], accessed[6]];
        let modified = [modified[0], modified[1], modified[2], modified[3], modified[4]];
        assert(created@ =~= u32s_le(c.skip(16), 7));
        assert(accessed@ =~= u32s_le(c.skip(44), 7));
        assert(modified@ =~= u32s_le(c.skip(72), 5));
        Ok((unknown_4, created, accessed, modified))
    }

    #[verifier::spinoff_prover]
    pub fn parse(inp: &mut &[u8]) -> (r: Result<AssetMetadataRef, AssetMetadataError>)
        ensures
            asset_parse_error(old(inp)@) is None ==> (r matches Ok(a) && asset_from_bytes(
                a,
                old(inp)@,
            )),
            asset_parse_error(old(inp)@) matches Some(e) ==> r == Err::<
                AssetMetadataRef,
                AssetMetadataError,
            >(e),
            final(inp)@ == old(inp)@.skip(asset_parse_consumed(old(inp)@)),
    {
        let ghost b = inp@;
        let unknown_1 = match take_array16(inp) {
            Ok(v) => v,
            Err(_) => return Err(AssetMetadataError::Unknown1),
        };
        let id = match take_u32(inp) { Ok(v) => v, Err(_) => return Err(AssetMetadataError::Id) };
        let unknown_2 = match take_u32(inp) { Ok(v) => v, Err(_) => return Err(AssetMetadataError::Unknown2) };
        assert(inp@ =~= b.skip(24));
        let data_length = match take_u32(inp) { Ok(v) => v, Err(_) => return Err(AssetMetadataError::ContentLength) };
        let data_position = match take_u32(inp) { Ok(v) => v, Err(_) => return Err(AssetMetadataError::ContentPosition) };
        assert(inp@ =~= b.skip(32));
        let unknown_3 = match take_u32(inp) { Ok(v) => v, Err(_) => return Err(AssetMetadataError::Unknown3) };
        let path_len = match take_u32(inp) { Ok(v) => v, Err(_) => return Err(AssetMetadataError::PathLen) };
        assert(inp@ =~= b.skip(40));
        let ghost l = path_len as int;
        let path = match take_bytes(inp, path_len as usize) {
            Ok(p) => p,
            Err(_) => return Err(AssetMetadataError::Path),
        };
        assert(path@ =~= b.subrange(40, 40 + l));
        assert(inp@ =~= b.skip(40 + l));
        let path = match str_from_utf8(path) {
            Some(s) => s,
            None => return Err(AssetMetadataError::PathToString),
        };
        let path: String = path.to_owned();
        let (unknown_4, created, accessed, modified) = Self::parse_tail(inp)?;
        let ghost c = b.skip(40 + l);
        assert(c.skip(16) =~= b.skip(56 + l));
        assert(c.skip(44) =~= b.skip(84 + l));
        assert(c.skip(72) =~= b.skip(112 + l));
        assert(c.skip(92) =~= b.skip(132 + l));
        assert(c.take(16) =~= b.subrange(40 + l, 56 + l));
        let r = AssetMetadataRef {
            unknown_1,
            id,
            unknown_2,
            content_length: data_length,
            content_position: data_position,
            unknown_3,
            path,
            unknown_4,
            created,
            accessed,
            modified,
        };
        Ok(r)
    }

    /// Writes the six fields before the path length at `*pos`.
    #[verifier::spinoff_prover]
    fn serialize_head(&self, out: &mut Vec<u8>, pos: &mut usize) -> (r: Result<(), AssetMetadataError>)
        requires
            *old(pos) <= old(out)@.len(),
        ensures
            ({
                let room = old(out)@.len() - *old(pos);
                let n = if room >= 36 { 36 } else { asset_put_prefix(room, 0) };
                &&& final(out)@ == splice(old(out)@, *old(pos) as int, asset_bytes(*self).take(n))
                &&& *final(pos) == *old(pos) + n
                &&& room < 36 ==> r == match asset_put_error(room, 0) {
                    None => Ok::<(), AssetMetadataError>(()),
                    Some(e) => Err(e),
                }
                &&& room >= 36 ==> r is Ok
            }),
    {
        let ghost o = out@;
        let ghost p0 = *pos as int;
        let ghost ab = asset_bytes(*self);
        proof {
            lemma_asset_bytes_len(*self);
            assert(splice(o, p0, ab.take(0)) =~= o);
        }
        match put_bytes(out, pos, self.unknown_1.as_slice()) {
            Ok(()) => {},
            Err(_) => return Err(AssetMetadataError::Unknown1),
        }
        assert(out@ =~= splice(o, p0, ab.take(16)));
        match put_u32(out, pos, self.id) {
            Ok(()) => {},
            Err(_) => return Err(AssetMetadataError::Id),
        }
        assert(out@ =~= splice(o, p0, ab.take(20)));
        match put_u32(out, pos, self.unknown_2) {
            Ok(()) => {},
            Err(_) => return Err(AssetMetadataError::Unknown2),
        }
        assert(out@ =~= splice(o, p0, ab.take(24)));
        match put_u32(out, pos, self.content_length) {
            Ok(()) => {},
            Err(_) => return Err(AssetMetadataError::ContentLength),
        }
        assert(out@ =~= splice(o, p0, ab.take(28)));
        match put_u32(out, pos, self.content_position) {
            Ok(()) => {},
            Err(_) => return Err(AssetMetadataError::ContentPosition),
        }
        assert(out@ =~= splice(o, p0, ab.take(32)));
        match put_u32(out, pos, self.unknown_3) {
            Ok(()) => {},
            Err(_) => return Err(AssetMetadataError::Unknown3),
        }
        assert(out@ =~= splice(o, p0, ab.take(36)));
        Ok(())
    }

    /// Writes the fields that follow the path at `*pos`.
    fn serialize_tail(&self, out: &mut Vec<u8>, pos: &mut usize) -> (r: Result<(), AssetMetadataError>)
        requires
            *old(pos) <= old(out)@.len(),
        ensures
            ({
                let room = old(out)@.len() - *old(pos);
                let t = self.unknown_4@ + u32s_le_bytes(self.created@) + u32s_le_bytes(
                    self.accessed@,
                ) + u32s_le_bytes(self.modified@);
                let n = asset_tail_consumed_len(room);
                &&& final(out)@ == splice(old(out)@, *old(pos) as int, t.take(n))
                &&& *final(pos) == *old(pos) + n
                &&& r == match asset_tail_error_len(room) {
                    None => Ok::<(), AssetMetadataError>(()),
                    Some(e) => Err(e),
                }
            }),
    {
        let ghost o = out@;
        let ghost p0 = *pos as int;
        let ghost t = self.unknown_4@ + u32s_le_bytes(self.created@) + u32s_le_bytes(self.accessed@)
            + u32s_le_bytes(self.modified@);
        proof {
            lemma_u32s_le_bytes_len(self.created@);
            lemma_u32s_le_bytes_len(self.accessed@);
            lemma_u32s_le_bytes_len(self.modified@);
            assert(splice(o, p0, t.take(0)) =~= o);
        }
        match put_bytes(out, pos, self.unknown_4.as_slice()) {
            Ok(()) => {},
            Err(_) => return Err(AssetMetadataError::Unknown4),
        }
        assert(out@ =~= splice(o, p0, t.take(16)));
        match put_u32s(out, pos, self.created.as_slice()) {
            Ok(()) => {},
            Err(_) => return Err(AssetMetadataError::Created),
        }
        assert(out@ =~= splice(o, p0, t.take(44)));
        match put_u32s(out, pos, self.accessed.as_slice()) {
            Ok(()) => {},
            Err(_) => return Err(AssetMetadataError::Accessed),
        }
        assert(out@ =~= splice(o, p0, t.take(72)));
        match put_u32s(out, pos, self.modified.as_slice()) {
            Ok(()) => {},
            Err(_) => return Err(AssetMetadataError::Modified),
        }
        assert(out@ =~= splice(o, p0, t.take(92)));
        assert(t.take(92) =~= t);
        Ok(())
    }

    /// Writes the entry's encoding at `*pos`, advancing `*pos`. When the
    /// buffer runs out, the fields that fit are written and the first field
    /// that does not is the error; a path longer than `u32::MAX` bytes is a
    /// `PathLen` error.
    #[verifier::spinoff_prover]
    #[verifier::rlimit(100)]
    pub fn serialize(&self, out: &mut Vec<u8>, pos: &mut usize) -> (r: Result<(), AssetMetadataError>)
        requires
            *old(pos) <= old(out)@.len(),
        ensures
            ({
                let room = old(out)@.len() - *old(pos);
                let l = path_bytes(*self).len() as int;
                let n = asset_put_prefix(room, l);
                &&& final(out)@ == splice(old(out)@, *old(pos) as int, asset_bytes(*self).take(n))
                &&& *final(pos) == *old(pos) + n
                &&& r == match asset_put_error(room, l) {
                    None => Ok::<(), AssetMetadataError>(()),
                    Some(e) => Err(e),
                }
            }),
    {
        let ghost o = out@;
        let ghost p0 = *pos as int;
        let ghost ab = asset_bytes(*self);
        let path: &str = self.path.as_str();
        let path_bytes_exec: &[u8] = path.as_bytes();
        let ghost l = path_bytes(*self).len() as int;
        proof {
            lemma_asset_bytes_len(*self);
        }
        match self.serialize_head(out, pos) {
            Ok(()) => {},
            Err(e) => return Err(e),
        }
        if path_bytes_exec.len() > 0xffff_ffff {
            return Err(AssetMetadataError::PathLen);
        }
        let path_len = path_bytes_exec.len() as u32;
        match put_u32(out, pos, path_len) {
            Ok(()) => {},
            Err(_) => return Err(AssetMetadataError::PathLen),
        }
        assert(out@ =~= splice(o, p0, ab.take(40)));
        match put_bytes(out, pos, path_bytes_exec) {
            Ok(()) => {},
            Err(_) => return Err(AssetMetadataError::Path),
        }
        assert(out@ =~= splice(o, p0, ab.take(40 + l)));
        let ghost mid = out@;
        let ghost p1 = *pos as int;
        let r = self.serialize_tail(out, pos);
        proof {
            let t = self.unknown_4@ + u32s_le_bytes(self.created@) + u32s_le_bytes(self.accessed@)
                + u32s_le_bytes(self.modified@);
            assert(ab =~= ab.take(40 + l) + t);
            let n = asset_tail_consumed_len(mid.len() - p1);
            assert(ab.take(40 + l + n) =~= ab.take(40 + l) + t.take(n));
            assert(out@ =~= splice(o, p0, ab.take(40 + l + n)));
        }
        r
    }

    /// Number of bytes [`serialize`](Self::serialize) writes.
    pub fn byte_size(&self) -> (r: usize)
        requires
            132 + path_bytes(*self).len() <= usize::MAX,
        ensures
            r == asset_bytes(*self).len(),
    {
        proof {
            lemma_asset_bytes_len(*self);
        }
        16 + 4 + 4 + 4 + 4 + 4 + 4 + self.path.as_str().len() + 16 + 28 + 28 + 20
    }

    /// An entry that owns its path (the same entry: paths are always owned).
    pub fn into_owned(self) -> (r: AssetMetadata)
        ensures
            r == self,
    {
        self
    }
}

// ── the asset table ───────────────────────────────────────────────────────────

/// The bytes of `b` left after reading `n` entries one after the other.
pub open spec fn table_rest(b: Seq<u8>, n: nat) -> Seq<u8>
    decreases n,
{
    if n == 0 {
        b
    } else {
        let r = table_rest(b, (n - 1) as nat);
        r.skip(asset_parse_consumed(r))
    }
}

/// Whether entry `k` of `b` (after the `k` before it) parses.
pub open spec fn table_entry_ok(b: Seq<u8>, k: nat) -> bool {
    asset_parse_error(table_rest(b, k)) is None
}

/// Whether the entries of `b`, read one after the other, are `ps`.
pub open spec fn table_parses_to(b: Seq<u8>, ps: Seq<AssetMetadata>) -> bool
    decreases ps.len(),
{
    ps.len() == 0 || (table_parses_to(b, ps.drop_last()) && table_entry_ok(
        b,
        (ps.len() - 1) as nat,
    ) && asset_from_bytes(ps.last(), table_rest(b, (ps.len() - 1) as nat)))
}

/// `m` with `a` stored under its path: replacing the entry with the same
/// path, or appended when there is none.
pub open spec fn table_insert(m: Seq<AssetMetadata>, a: AssetMetadata) -> Seq<AssetMetadata> {
    if exists|i: int| 0 <= i < m.len() && #[trigger] m[i].path@ == a.path@ {
        let i = choose|i: int| 0 <= i < m.len() && #[trigger] m[i].path@ == a.path@;
        m.update(i, a)
    } else {
        m.push(a)
    }
}

/// The table built by storing each of `ps` in turn.
pub open spec fn table_of(ps: Seq<AssetMetadata>) -> Seq<AssetMetadata>
    decreases ps.len(),
{
    if ps.len() == 0 {
        Seq::empty()
    } else {
        table_insert(table_of(ps.drop_last()), ps.last())
    }
}

/// No two entries of `m` share a path.
pub open spec fn paths_unique(m: Seq<AssetMetadata>) -> bool {
    forall|i: int, j: int|
        0 <= i < m.len() && 0 <= j < m.len() && i != j ==> #[trigger] m[i].path@ != #[trigger] m[j].path@
}

/// Stores `a` under its path in `assets`.
fn insert_asset(assets: &mut Vec<AssetMetadata>, a: AssetMetadata)
    requires
        paths_unique(old(assets)@),
    ensures
        final(assets)@ == table_insert(old(assets)@, a),
        paths_unique(final(assets)@),
{
    let mut j: usize = 0;
    while j < assets.len()
        invariant
            j <= assets.len(),
            assets@ == old(assets)@,
            paths_unique(old(assets)@),
            forall|k: int| 0 <= k < j ==> (#[trigger] assets@[k]).path@ != a.path@,
        decreases assets.len() - j,
    {
        if str_eq(assets[j].path.as_str(), a.path.as_str()) {
            let ghost m = assets@;
            proof {
                let i = choose|i: int| 0 <= i < m.len() && #[trigger] m[i].path@ == a.path@;
                assert(m[j as int].path@ == a.path@);
                assert(i == j as int);
            }
            assets.set(j, a);
            assert(assets@ == table_insert(m, a));
            return;
        }
        j += 1;
    }
    let ghost m = assets@;
    assets.push(a);
    assert(!exists|i: int| 0 <= i < m.len() && #[trigger] m[i].path@ == a.path@);
}

/// Errors reading the asset table.
#[derive(Clone, Copy, Debug, PartialEq, Eq, Structural)]
pub enum ReadAssetTableError {
    /// Entry number `.0` does not parse.
    ParseAssetMetadata(u32, AssetMetadataError),
}

/// Reads `count` entries off the front of `table`, storing each under its
/// path (a later entry replaces an earlier one with the same path).
pub fn read_asset_table(table: &[u8], count: u32) -> (r: Result<
    Vec<AssetMetadata>,
    ReadAssetTableError,
>)
    ensures
        r is Ok <==> forall|k: nat| k < count ==> table_entry_ok(table@, k),
        r matches Ok(v) ==> exists|ps: Seq<AssetMetadata>|
            #![trigger table_of(ps)]
            table_parses_to(table@, ps) && ps.len() == count && v@ == table_of(ps),
        r matches Ok(v) ==> paths_unique(v@),
        r matches Err(ReadAssetTableError::ParseAssetMetadata(i, e)) ==> {
            &&& i < count
            &&& forall|k: nat| k < i ==> table_entry_ok(table@, k)
            &&& asset_parse_error(table_rest(table@, i as nat)) == Some(e)
        },
{
    let mut cur: &[u8] = table;
    let mut assets: Vec<AssetMetadata> = Vec::new();
    let ghost mut ps: Seq<AssetMetadata> = Seq::empty();
    let mut i: u32 = 0;
    while i < count
        invariant
            i <= count,
            cur@ == table_rest(table@, i as nat),
            table_parses_to(table@, ps),
            ps.len() == i,
            assets@ == table_of(ps),
            paths_unique(assets@),
            forall|k: nat| k < i ==> table_entry_ok(table@, k),
        decreases count - i,
    {
        let ghost before = cur@;
        match AssetMetadataRef::parse(&mut cur) {
            Ok(a) => {
                let ghost prev = ps;
                insert_asset(&mut assets, a);
                proof {
                    ps = ps.push(a);
                    assert(ps.drop_last() =~= prev);
                    assert(table_entry_ok(table@, i as nat));
                }
            },
            Err(e) => {
                proof {
                    assert(asset_parse_error(before) == Some(e));
                    assert(!table_entry_ok(table@, i as nat));
                }
                return Err(ReadAssetTableError::ParseAssetMetadata(i, e));
            },
        }
        i += 1;
        assert forall|k: nat| k < i implies table_entry_ok(table@, k) by {}
    }
    Ok(assets)
}

/// The bytes from the asset table's position to the end of the archive
/// (none when the position lies past the end).
pub open spec fn table_region(file: Seq<u8>) -> Seq<u8> {
    let p = u32_le(file.skip(28)) as int;
    if p <= file.len() {
        file.skip(p)
    } else {
        Seq::empty()
    }
}

/// The number of assets the header of `file` announces.
pub open spec fn announced_asset_count(file: Seq<u8>) -> u32 {
    u32_le(file.skip(20))
}

/// Errors [`WadReader::new`] reports.
#[derive(Clone, Copy, Debug, PartialEq, Eq, Structural)]
pub enum WadReaderError {
    /// The archive is shorter than its header.
    ReadHeader,
    ParseHeader(HeaderError),
    ReadAssetTable(ReadAssetTableError),
}

/// Errors [`WadReader::read_content`] reports.
#[derive(Clone, Copy, Debug, PartialEq, Eq, Structural)]
pub enum ReadContentError {
    /// The asset's content runs past the end of the archive.
    Read,
}

/// A `.wad` archive held in memory, with its header and asset table read.
pub struct WadReader {
    source: Vec<u8>,
    header: Header,
    assets: Vec<AssetMetadata>,
}

impl WadReader {
    /// The archive's bytes.
    pub closed spec fn source_spec(&self) -> Seq<u8> {
        self.source@
    }

    /// The archive's header.
    pub closed spec fn header_spec(&self) -> Header {
        self.header
    }

    /// The asset table, one entry per path.
    pub closed spec fn assets_spec(&self) -> Seq<AssetMetadata> {
        self.assets@
    }

    #[verifier::type_invariant]
    spec fn well_formed(&self) -> bool {
        paths_unique(self.assets@)
    }

    /// Reads the header at the start of `source` and the asset table at the
    /// position the header gives.
    pub fn new(source: Vec<u8>) -> (r: Result<Self, WadReaderError>)
        ensures
            source@.len() < 32 <==> r == Err::<Self, WadReaderError>(WadReaderError::ReadHeader),
            source@.len() >= 32 ==> (r is Ok <==> forall|k: nat|
                k < announced_asset_count(source@) ==> table_entry_ok(table_region(source@), k)),
            r matches Ok(w) ==> {
                &&& w.source_spec() == source@
                &&& header_from_bytes(w.header_spec(), source@)
                &&& exists|ps: Seq<AssetMetadata>|
                    #![trigger table_of(ps)]
                    table_parses_to(table_region(source@), ps) && ps.len()
                        == announced_asset_count(source@) && w.assets_spec() == table_of(ps)
            },
            r matches Err(WadReaderError::ReadAssetTable(ReadAssetTableError::ParseAssetMetadata(i, e)))
                ==> {
                &&& source@.len() >= 32
                &&& i < announced_asset_count(source@)
                &&& forall|k: nat| k < i ==> table_entry_ok(table_region(source@), k)
                &&& asset_parse_error(table_rest(table_region(source@), i as nat)) == Some(e)
            },
            !(r matches Err(WadReaderError::ParseHeader(_))),
    {
        if source.len() < 32 {
            return Err(WadReaderError::ReadHeader);
        }
        let mut head: &[u8] = source.as_slice();
        let header = match Header::parse(&mut head) {
            Ok(h) => h,
            Err(e) => return Err(WadReaderError::ParseHeader(e)),
        };
        let pos = header.asset_table_position as usize;
        let table: &[u8] = if pos <= source.len() {
            let (_, t) = source.as_slice().split_at(pos);
            t
        } else {
            &[]
        };
        assert(table@ =~= table_region(source@));
        let assets = match read_asset_table(table, header.asset_count) {
            Ok(a) => a,
            Err(e) => return Err(WadReaderError::ReadAssetTable(e)),
        };
        Ok(WadReader { source, header, assets })
    }

    /// The parsed header of this wad file.
    pub fn header(&self) -> (r: &Header)
        ensures
            *r == self.header_spec(),
    {
        &self.header
    }

    /// The metadata of every asset in the wad's asset table.
    pub fn asset_iter(&self) -> (r: &[AssetMetadata])
        ensures
            r@ == self.assets_spec(),
    {
        self.assets.as_slice()
    }

    /// Looks up a single asset's metadata by its full in-game path.
    pub fn asset(&self, path: &str) -> (r: Option<&AssetMetadata>)
        ensures
            r is None <==> forall|i: int|
                0 <= i < self.assets_spec().len() ==> (#[trigger] self.assets_spec()[i]).path@
                    != path@,
            r matches Some(a) ==> exists|i: int|
                0 <= i < self.assets_spec().len() && #[trigger] self.assets_spec()[i] == *a,
            r matches Some(a) ==> a.path@ == path@,
    {
        let mut j: usize = 0;
        while j < self.assets.len()
            invariant
                j <= self.assets@.len(),
                forall|k: int| 0 <= k < j ==> (#[trigger] self.assets@[k]).path@ != path@,
            decreases self.assets.len() - j,
        {
            if str_eq(self.assets[j].path.as_str(), path) {
                assert(self.assets_spec()[j as int].path@ == path@);
                return Some(&self.assets[j]);
            }
            j += 1;
        }
        None
    }

    /// Reads the raw file content of an asset.
    pub fn read_content(&self, asset: &AssetMetadata) -> (r: Result<Vec<u8>, ReadContentError>)
        ensures
            asset.content_position + asset.content_length <= self.source_spec().len() <==> r is Ok,
            r matches Ok(c) ==> c@ == self.source_spec().subrange(
                asset.content_position as int,
                asset.content_position + asset.content_length,
            ),
    {
        let start = asset.content_position as usize;
        let len = asset.content_length as usize;
        if start > self.source.len() || len > self.source.len() - start {
            return Err(ReadContentError::Read);
        }
        let (_, rest) = self.source.as_slice().split_at(start);
        let (content, _) = rest.split_at(len);
        let mut v: Vec<u8> = Vec::new();
        append_bytes(&mut v, content);
        assert(v@ =~= self.source@.subrange(start as int, start + len));
        Ok(v)
    }
}

// ── writing the asset table ──────────────────────────────────────────────────

/// The encodings of `es`, one after the other.
pub open spec fn table_bytes(es: Seq<AssetMetadata>) -> Seq<u8>
    decreases es.len(),
{
    if es.len() == 0 {
        Seq::empty()
    } else {
        table_bytes(es.drop_last()) + asset_bytes(es.last())
    }
}

/// Every path of `es` has a length that fits the `u32` length field.
pub open spec fn paths_fit(es: Seq<AssetMetadata>) -> bool {
    forall|i: int| 0 <= i < es.len() ==> (#[trigger] path_bytes(es[i])).len() <= u32::MAX
}

proof fn lemma_table_bytes_concat(a: Seq<AssetMetadata>, b: Seq<AssetMetadata>)
    ensures
        table_bytes(a + b) == table_bytes(a) + table_bytes(b),
    decreases b.len(),
{
    if b.len() == 0 {
        assert(a + b =~= a);
        assert(table_bytes(a) + table_bytes(b) =~= table_bytes(a));
    } else {
        lemma_table_bytes_concat(a, b.drop_last());
        assert((a + b).drop_last() =~= a + b.drop_last());
        assert(table_bytes(a + b) =~= table_bytes(a) + table_bytes(b));
    }
}

proof fn lemma_table_bytes_prefix(es: Seq<AssetMetadata>, i: int)
    requires
        0 <= i <= es.len(),
    ensures
        table_bytes(es.take(i)).len() <= table_bytes(es).len(),
{
    lemma_table_bytes_concat(es.take(i), es.skip(i));
    assert(es.take(i) + es.skip(i) =~= es);
}

/// The encoding of the whole table, the entries one after the other. Fails
/// with [`AssetMetadataError::PathLen`] when a path is too long for its
/// length field.
pub fn serialize_asset_table(entries: &[AssetMetadata]) -> (r: Result<Vec<u8>, AssetMetadataError>)
    requires
        table_bytes(entries@).len() <= usize::MAX,
    ensures
        r is Ok <==> paths_fit(entries@),
        r matches Ok(v) ==> v@ == table_bytes(entries@),
        r matches Err(e) ==> e == AssetMetadataError::PathLen,
{
    let mut out: Vec<u8> = Vec::new();
    let mut i: usize = 0;
    while i < entries.len()
        invariant
            i <= entries@.len(),
            out@ == table_bytes(entries@.take(i as int)),
            paths_fit(entries@.take(i as int)),
            table_bytes(entries@).len() <= usize::MAX,
        decreases entries.len() - i,
    {
        let e = &entries[i];
        if e.path.as_str().len() > 0xffff_ffff {
            assert(!paths_fit(entries@)) by {
                assert(path_bytes(entries@[i as int]).len() > u32::MAX);
            }
            return Err(AssetMetadataError::PathLen);
        }
        proof {
            lemma_table_bytes_prefix(entries@, i + 1);
            assert(entries@.take(i + 1).drop_last() =~= entries@.take(i as int));
            lemma_asset_bytes_len(*e);
        }
        let start = out.len();
        let n = e.byte_size();
        let ghost before = out@;
        append_zeros(&mut out, n);
        let mut pos = start;
        let _ = e.serialize(&mut out, &mut pos);
        proof {
            assert(out@ =~= before + asset_bytes(*e));
            assert(entries@.take(i + 1).last() == *e);
        }
        i += 1;
        assert(paths_fit(entries@.take(i as int)));
    }
    assert(entries@.take(i as int) =~= entries@);
    Ok(out)
}

/// How many zero bytes follow `len` bytes of content to fill the last block
/// of `block_size` bytes (none when the block size is zero).
pub fn content_padding(len: usize, block_size: usize) -> (r: usize)
    ensures
        block_size == 0 ==> r == 0,
        block_size > 0 ==> r == (block_size - len % block_size) % (block_size as int),
        block_size > 0 ==> (len + r) % (block_size as int) == 0 && r < block_size,
{
    if block_size == 0 {
        0
    } else {
        let r = (block_size - (len % block_size)) % block_size;
        proof {
            let m = len % block_size;
            if m == 0 {
                assert((block_size as int) % (block_size as int) == 0) by (nonlinear_arith)
                    requires block_size > 0;
            } else {
                vstd::arithmetic::div_mod::lemma_small_mod((block_size - m) as nat, block_size as nat);
                assert(r == block_size - m);
                assert((len + r) % (block_size as int) == 0) by (nonlinear_arith)
                    requires m == len % block_size, r == block_size - m, block_size > 0, 0 < m < block_size;
            }
        }
        r
    }
}

/// The bytes written for a content of `content` in blocks of `block_size`
/// bytes: the content, then zeros up to the end of its last block (see
/// [`content_padding`]).
pub fn padded_content(content: &[u8], block_size: usize) -> (r: Vec<u8>)
    requires
        block_size == 0 || content@.len() + (block_size - (content@.len() as int) % (block_size as int)) % (block_size as int)
            <= usize::MAX,
    ensures
        r@.len() == content@.len() + (if block_size == 0 {
            0
        } else {
            (block_size - (content@.len() as int) % (block_size as int)) % (block_size as int)
        }),
        r@.take(content@.len() as int) == content@,
        forall|i: int| content@.len() <= i < r@.len() ==> r@[i] == 0,
        block_size > 0 ==> (r@.len() as int) % (block_size as int) == 0,
{
    let pad = content_padding(content.len(), block_size);
    let mut v: Vec<u8> = Vec::new();
    crate::bytes::append_bytes(&mut v, content);
    let mut k: usize = 0;
    while k < pad
        invariant
            k <= pad,
            content@.len() + pad <= usize::MAX,
            v@.len() == content@.len() + k,
            v@.take(content@.len() as int) == content@,
            forall|i: int| content@.len() <= i < v@.len() ==> v@[i] == 0,
        decreases pad - k,
    {
        let ghost before = v@;
        v.push(0u8);
        k += 1;
        assert(v@.take(content@.len() as int) =~= before.take(content@.len() as int));
    }
    v
}

// ── laws of the table ─────────────────────────────────────────────────────────

proof fn lemma_table_front(x: AssetMetadata, tail: Seq<AssetMetadata>, rest: Seq<u8>)
    requires
        path_bytes(x).len() <= u32::MAX,
    ensures
        ({
            let t = table_bytes(tail) + rest;
            let b = table_bytes(seq![x] + tail) + rest;
            &&& b == asset_bytes(x) + t
            &&& asset_parse_error(b) is None
            &&& asset_from_bytes(x, b)
            &&& b.skip(asset_parse_consumed(b)) == t
        }),
{
    let t = table_bytes(tail) + rest;
    lemma_table_bytes_concat(seq![x], tail);
    assert(seq![x].drop_last() =~= Seq::<AssetMetadata>::empty());
    assert(table_bytes(seq![x].drop_last()) == Seq::<u8>::empty());
    assert(table_bytes(seq![x]) =~= asset_bytes(x));
    assert(table_bytes(seq![x] + tail) + rest =~= asset_bytes(x) + t);
    lemma_asset_parse_serialize(x, t);
    assert((asset_bytes(x) + t).skip(asset_bytes(x).len() as int) =~= t);
}

proof fn lemma_table_rest_of_bytes(es: Seq<AssetMetadata>, rest: Seq<u8>, k: nat)
    requires
        k <= es.len(),
        paths_fit(es),
    ensures
        table_rest(table_bytes(es) + rest, k) == table_bytes(es.skip(k as int)) + rest,
    decreases k,
{
    if k == 0 {
        assert(es.skip(0) =~= es);
    } else {
        let j = (k - 1) as nat;
        lemma_table_rest_of_bytes(es, rest, j);
        assert(es.skip(j as int) =~= seq![es[j as int]] + es.skip(k as int));
        assert(path_bytes(es[j as int]).len() <= u32::MAX);
        lemma_table_front(es[j as int], es.skip(k as int), rest);
    }
}

proof fn lemma_table_entry(es: Seq<AssetMetadata>, rest: Seq<u8>, j: nat)
    requires
        j < es.len(),
        paths_fit(es),
    ensures
        table_entry_ok(table_bytes(es) + rest, j),
        asset_from_bytes(es[j as int], table_rest(table_bytes(es) + rest, j)),
{
    lemma_table_rest_of_bytes(es, rest, j);
    assert(es.skip(j as int) =~= seq![es[j as int]] + es.skip(j + 1 as int));
    assert(path_bytes(es[j as int]).len() <= u32::MAX);
    lemma_table_front(es[j as int], es.skip(j + 1 as int), rest);
}

proof fn lemma_table_parses_prefix(es: Seq<AssetMetadata>, rest: Seq<u8>, n: nat)
    requires
        n <= es.len(),
        paths_fit(es),
    ensures
        table_parses_to(table_bytes(es) + rest, es.take(n as int)),
    decreases n,
{
    if n > 0 {
        let j = (n - 1) as nat;
        lemma_table_parses_prefix(es, rest, j);
        let p = es.take(n as int);
        assert(p.drop_last() =~= es.take(j as int));
        lemma_table_entry(es, rest, j);
        assert(p.last() == es[j as int]);
    }
}

proof fn lemma_table_of_unique(es: Seq<AssetMetadata>)
    requires
        paths_unique(es),
    ensures
        table_of(es) == es,
    decreases es.len(),
{
    if es.len() > 0 {
        let d = es.drop_last();
        assert(paths_unique(d)) by {
            assert forall|i: int, j: int|
                0 <= i < d.len() && 0 <= j < d.len() && i != j implies #[trigger] d[i].path@
                != #[trigger] d[j].path@ by {
                assert(d[i] == es[i] && d[j] == es[j]);
            }
        }
        lemma_table_of_unique(d);
        assert(!exists|i: int| 0 <= i < d.len() && #[trigger] d[i].path@ == es.last().path@) by {
            assert forall|i: int| 0 <= i < d.len() implies #[trigger] d[i].path@ != es.last().path@ by {
                assert(d[i] == es[i]);
                assert(es.last() == es[es.len() - 1]);
            }
        }
        assert(d.push(es.last()) =~= es);
    }
}

/// Reading back the encoding of entries with distinct paths (each short
/// enough for its length field), whatever follows it, gives those entries,
/// in that order.
pub proof fn lemma_table_roundtrip(es: Seq<AssetMetadata>, rest: Seq<u8>)
    requires
        paths_unique(es),
        paths_fit(es),
    ensures
        forall|k: nat| k < es.len() ==> table_entry_ok(table_bytes(es) + rest, k),
        table_parses_to(table_bytes(es) + rest, es),
        table_of(es) == es,
{
    lemma_table_parses_prefix(es, rest, es.len());
    assert(es.take(es.len() as int) =~= es);
    assert forall|k: nat| k < es.len() implies table_entry_ok(table_bytes(es) + rest, k) by {
        lemma_table_entry(es, rest, k);
    }
    lemma_table_of_unique(es);
}

} // verus!
