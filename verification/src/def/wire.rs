//! The def wire model: how a field's value is laid out after its control
//! id. A value's Rust type fixes its layout, so parsing, writing and
//! measuring a value cannot disagree:
//!
//! | type                  | wire                                          |
//! |-----------------------|-----------------------------------------------|
//! | `i32`/`u32`, ...      | little-endian, the type's width               |
//! | `bool`                | one byte (`0`/`1`; any non-zero reads `true`) |
//! | `String`              | UTF-8, NUL-terminated                         |
//! | [`PString`]           | `u32` length, then the raw bytes              |
//! | `Vec<T>`              | `u32` count, then the elements                |
//! | `[T; N]`              | the `N` elements, no count                    |
//! | `BTreeMap<u32, V>`    | `u32` count, then the pairs, keys ascending   |
//! | [`VecMap<K, V>`]      | `u32` count, then the pairs in stored order   |
//! | def enums             | four bytes, a value of the C++ enum table     |
//! | def flag sets         | four bytes, any value                         |

use vstd::prelude::*;
use vstd::std_specs::cmp::PartialEqSpec;

use vstd::string::StringSliceAdditionalSpecFns;
use vstd::utf8::{decode_utf8, encode_utf8, valid_utf8};

use crate::bytes::{
    put_bytes, put_u16, put_u32, put_u64, put_u8, splice, str_from_utf8, take_bytes, take_u16, take_u32,
    take_u64, take_u8, u16_le, u16_le_bytes, u32_le, u32_le_bytes, u64_le, u64_le_bytes, UnexpectedEnd,
};
use crate::def::enums::DefEnum;
use crate::kv::{find_byte, find_byte_exec};

verus! {

// ── errors ────────────────────────────────────────────────────────────────────

/// Why a NUL-terminated UTF-8 string could not be read.
#[derive(Debug, Clone, Copy, PartialEq, Eq, Structural)]
pub enum NulTerminatedUtf8Error {
    /// No NUL ends the string.
    Unterminated,
    /// The bytes before the NUL are not UTF-8.
    NotUtf8,
}

/// Why a NUL-terminated UTF-16 string could not be read.
#[derive(Debug, Clone, Copy, PartialEq, Eq, Structural)]
pub enum NulTerminatedUtf16Error {
    /// No NUL unit ends the string.
    Unterminated,
    /// A surrogate before the NUL has no partner.
    NotUtf16,
}

/// Why a wire value could not be parsed.
#[derive(Debug, PartialEq)]
pub enum ParseWireError {
    UnexpectedEnd,
    /// The value isn't in the field's C++ enum table.
    InvalidEnumValue { value: i32 },
    /// A tagged-union tag with no matching case.
    InvalidVariantTag(u32),
    Utf8(NulTerminatedUtf8Error),
    Utf16(NulTerminatedUtf16Error),
    /// Error inside the `index`th element of a container.
    Item { index: usize, inner: Box<ParseWireError> },
    /// Error inside a named member of a compound.
    Member { name: &'static str, inner: Box<ParseWireError> },
}

// ── the wire trait ────────────────────────────────────────────────────────────

/// A value on the def wire: the bytes of one field after its control id (or
/// of one container element, which carries no id of its own).
pub trait Wire: Sized {
    /// What a value is on the wire.
    type Model;

    /// The wire model of `self`.
    spec fn model(&self) -> Self::Model;

    /// The bytes of a value.
    spec fn encode(m: Self::Model) -> Seq<u8>;

    /// What parsing the front of `b` gives, and the bytes taken.
    spec fn decode(b: Seq<u8>) -> (Result<Self::Model, ParseWireError>, int);

    /// Whether a value reads back as itself.
    spec fn encodable(m: Self::Model) -> bool;

    /// Reads a value off the front of `cur`.
    fn parse(cur: &mut &[u8]) -> (r: Result<Self, ParseWireError>)
        ensures
            r matches Ok(v) ==> Self::decode(old(cur)@).0 == Ok::<Self::Model, ParseWireError>(v.model()),
            r matches Err(e) ==> Self::decode(old(cur)@).0 == Err::<Self::Model, ParseWireError>(e),
            final(cur)@ == old(cur)@.skip(Self::decode(old(cur)@).1),
    ;

    /// Writes the value into `out` at `*pos`, advancing `*pos`; fails when
    /// it does not fit.
    fn serialize(&self, out: &mut Vec<u8>, pos: &mut usize) -> (r: Result<(), UnexpectedEnd>)
        requires
            *old(pos) <= old(out)@.len(),
        ensures
            final(out)@.len() == old(out)@.len(),
            *final(pos) <= final(out)@.len(),
            r is Ok <==> old(pos) + Self::encode(self.model()).len() <= old(out)@.len(),
            r is Ok ==> final(out)@ == splice(old(out)@, *old(pos) as int, Self::encode(self.model()))
                && *final(pos) == old(pos) + Self::encode(self.model()).len(),
    ;

    /// The number of bytes [`Wire::serialize`] writes.
    fn wire_size(&self) -> (r: usize)
        requires
            Self::encode(self.model()).len() <= usize::MAX,
        ensures
            r == Self::encode(self.model()).len(),
    ;

    /// Parsing never takes more bytes than there are.
    proof fn lemma_decode_len(b: Seq<u8>)
        ensures
            0 <= Self::decode(b).1 <= b.len(),
    ;

    /// A value that can be read back is read back from its bytes, whatever
    /// follows them, taking exactly those bytes.
    proof fn lemma_round_trip(m: Self::Model, rest: Seq<u8>)
        requires
            Self::encodable(m),
        ensures
            Self::decode(Self::encode(m) + rest) == (Ok::<Self::Model, ParseWireError>(m), Self::encode(m).len() as int),
    ;
}

/// A value written at the front of a buffer of exactly its encoded size
/// (what [`Wire::wire_size`] gives) fits, fills the buffer, and reading the
/// buffer back gives the value and takes every byte.
pub proof fn lemma_sized_buffer_round_trip<T: Wire>(m: T::Model, buf: Seq<u8>)
    requires
        T::encodable(m),
        buf.len() == T::encode(m).len(),
    ensures
        T::encode(m).len() <= buf.len(),
        splice(buf, 0, T::encode(m)) == T::encode(m),
        T::decode(splice(buf, 0, T::encode(m))) == (Ok::<T::Model, ParseWireError>(m), buf.len() as int),
{
    let e = T::encode(m);
    assert(splice(buf, 0, e) =~= e);
    T::lemma_round_trip(m, Seq::empty());
    assert(e + Seq::<u8>::empty() =~= e);
}

// ── scalars ───────────────────────────────────────────────────────────────────

/// Four bytes of a little-endian `u32`, or running out.
pub open spec fn decode_u32(b: Seq<u8>) -> (Result<u32, ParseWireError>, int) {
    if b.len() < 4 {
        (Err(ParseWireError::UnexpectedEnd), 0)
    } else {
        (Ok(u32_le(b)), 4)
    }
}

impl Wire for u32 {
    type Model = u32;

    open spec fn model(&self) -> u32 {
        *self
    }

    open spec fn encode(m: u32) -> Seq<u8> {
        u32_le_bytes(m)
    }

    open spec fn decode(b: Seq<u8>) -> (Result<u32, ParseWireError>, int) {
        decode_u32(b)
    }

    open spec fn encodable(m: u32) -> bool {
        true
    }

    fn parse(cur: &mut &[u8]) -> (r: Result<u32, ParseWireError>) {
        match take_u32(cur) {
            Ok(v) => Ok(v),
            Err(_) => {
                assert(cur@ =~= old(cur)@.skip(0));
                Err(ParseWireError::UnexpectedEnd)
            },
        }
    }

    fn serialize(&self, out: &mut Vec<u8>, pos: &mut usize) -> (r: Result<(), UnexpectedEnd>) {
        put_u32(out, pos, *self)
    }

    fn wire_size(&self) -> (r: usize) {
        4
    }

    proof fn lemma_decode_len(b: Seq<u8>) {
    }

    proof fn lemma_round_trip(m: u32, rest: Seq<u8>) {
        crate::bytes::lemma_u32_le(m, Seq::empty());
    }
}



/// `n` bytes read by `read`, or running out.
pub open spec fn decode_fixed<M>(b: Seq<u8>, n: int, read: spec_fn(Seq<u8>) -> M) -> (Result<M, ParseWireError>, int) {
    if b.len() < n {
        (Err(ParseWireError::UnexpectedEnd), 0)
    } else {
        (Ok(read(b)), n)
    }
}

impl Wire for u8 {
    type Model = u8;

    open spec fn model(&self) -> u8 {
        *self
    }

    open spec fn encode(m: u8) -> Seq<u8> {
        seq![m]
    }

    open spec fn decode(b: Seq<u8>) -> (Result<u8, ParseWireError>, int) {
        decode_fixed(b, 1, |b: Seq<u8>| b[0])
    }

    open spec fn encodable(m: u8) -> bool {
        true
    }

    fn parse(cur: &mut &[u8]) -> (r: Result<u8, ParseWireError>) {
        match take_u8(cur) {
            Ok(v) => Ok(v),
            Err(_) => {
                assert(cur@ =~= old(cur)@.skip(0));
                Err(ParseWireError::UnexpectedEnd)
            },
        }
    }

    fn serialize(&self, out: &mut Vec<u8>, pos: &mut usize) -> (r: Result<(), UnexpectedEnd>) {
        put_u8(out, pos, *self)
    }

    fn wire_size(&self) -> (r: usize) {
        1
    }

    proof fn lemma_decode_len(b: Seq<u8>) {
    }

    proof fn lemma_round_trip(m: u8, rest: Seq<u8>) {
    }
}

impl Wire for u16 {
    type Model = u16;

    open spec fn model(&self) -> u16 {
        *self
    }

    open spec fn encode(m: u16) -> Seq<u8> {
        u16_le_bytes(m)
    }

    open spec fn decode(b: Seq<u8>) -> (Result<u16, ParseWireError>, int) {
        decode_fixed(b, 2, |b: Seq<u8>| u16_le(b))
    }

    open spec fn encodable(m: u16) -> bool {
        true
    }

    fn parse(cur: &mut &[u8]) -> (r: Result<u16, ParseWireError>) {
        match take_u16(cur) {
            Ok(v) => Ok(v),
            Err(_) => {
                assert(cur@ =~= old(cur)@.skip(0));
                Err(ParseWireError::UnexpectedEnd)
            },
        }
    }

    fn serialize(&self, out: &mut Vec<u8>, pos: &mut usize) -> (r: Result<(), UnexpectedEnd>) {
        put_u16(out, pos, *self)
    }

    fn wire_size(&self) -> (r: usize) {
        2
    }

    proof fn lemma_decode_len(b: Seq<u8>) {
    }

    proof fn lemma_round_trip(m: u16, rest: Seq<u8>) {
        crate::bytes::lemma_u16_le(m, Seq::empty());
        assert(u16_le(u16_le_bytes(m) + rest) == u16_le(u16_le_bytes(m)));
    }
}

impl Wire for u64 {
    type Model = u64;

    open spec fn model(&self) -> u64 {
        *self
    }

    open spec fn encode(m: u64) -> Seq<u8> {
        u64_le_bytes(m)
    }

    open spec fn decode(b: Seq<u8>) -> (Result<u64, ParseWireError>, int) {
        decode_fixed(b, 8, |b: Seq<u8>| u64_le(b))
    }

    open spec fn encodable(m: u64) -> bool {
        true
    }

    fn parse(cur: &mut &[u8]) -> (r: Result<u64, ParseWireError>) {
        match take_u64(cur) {
            Ok(v) => Ok(v),
            Err(_) => {
                assert(cur@ =~= old(cur)@.skip(0));
                Err(ParseWireError::UnexpectedEnd)
            },
        }
    }

    fn serialize(&self, out: &mut Vec<u8>, pos: &mut usize) -> (r: Result<(), UnexpectedEnd>) {
        put_u64(out, pos, *self)
    }

    fn wire_size(&self) -> (r: usize) {
        8
    }

    proof fn lemma_decode_len(b: Seq<u8>) {
    }

    proof fn lemma_round_trip(m: u64, rest: Seq<u8>) {
        crate::bytes::lemma_u64_le(m, Seq::empty());
        let e = u64_le_bytes(m);
        assert((e + rest).skip(4).take(4) =~= e.skip(4).take(4));
        assert(u32_le((e + rest).skip(4)) == u32_le(e.skip(4)));
        assert(u64_le(e + rest) == u64_le(e));
    }
}

impl Wire for i8 {
    type Model = i8;

    open spec fn model(&self) -> i8 {
        *self
    }

    open spec fn encode(m: i8) -> Seq<u8> {
        seq![m as u8]
    }

    open spec fn decode(b: Seq<u8>) -> (Result<i8, ParseWireError>, int) {
        decode_fixed(b, 1, |b: Seq<u8>| b[0] as i8)
    }

    open spec fn encodable(m: i8) -> bool {
        true
    }

    fn parse(cur: &mut &[u8]) -> (r: Result<i8, ParseWireError>) {
        match take_u8(cur) {
            Ok(v) => Ok(v as i8),
            Err(_) => {
                assert(cur@ =~= old(cur)@.skip(0));
                Err(ParseWireError::UnexpectedEnd)
            },
        }
    }

    fn serialize(&self, out: &mut Vec<u8>, pos: &mut usize) -> (r: Result<(), UnexpectedEnd>) {
        put_u8(out, pos, *self as u8)
    }

    fn wire_size(&self) -> (r: usize) {
        1
    }

    proof fn lemma_decode_len(b: Seq<u8>) {
    }

    proof fn lemma_round_trip(m: i8, rest: Seq<u8>) {
        assert((m as u8) as i8 == m) by (bit_vector);
    }
}

impl Wire for i16 {
    type Model = i16;

    open spec fn model(&self) -> i16 {
        *self
    }

    open spec fn encode(m: i16) -> Seq<u8> {
        u16_le_bytes(m as u16)
    }

    open spec fn decode(b: Seq<u8>) -> (Result<i16, ParseWireError>, int) {
        decode_fixed(b, 2, |b: Seq<u8>| u16_le(b) as i16)
    }

    open spec fn encodable(m: i16) -> bool {
        true
    }

    fn parse(cur: &mut &[u8]) -> (r: Result<i16, ParseWireError>) {
        match take_u16(cur) {
            Ok(v) => Ok(v as i16),
            Err(_) => {
                assert(cur@ =~= old(cur)@.skip(0));
                Err(ParseWireError::UnexpectedEnd)
            },
        }
    }

    fn serialize(&self, out: &mut Vec<u8>, pos: &mut usize) -> (r: Result<(), UnexpectedEnd>) {
        put_u16(out, pos, *self as u16)
    }

    fn wire_size(&self) -> (r: usize) {
        2
    }

    proof fn lemma_decode_len(b: Seq<u8>) {
    }

    proof fn lemma_round_trip(m: i16, rest: Seq<u8>) {
        crate::bytes::lemma_u16_le(m as u16, Seq::empty());
        assert(u16_le(u16_le_bytes(m as u16) + rest) == u16_le(u16_le_bytes(m as u16)));
        assert((m as u16) as i16 == m) by (bit_vector);
    }
}

impl Wire for i32 {
    type Model = i32;

    open spec fn model(&self) -> i32 {
        *self
    }

    open spec fn encode(m: i32) -> Seq<u8> {
        u32_le_bytes(m as u32)
    }

    open spec fn decode(b: Seq<u8>) -> (Result<i32, ParseWireError>, int) {
        decode_fixed(b, 4, |b: Seq<u8>| u32_le(b) as i32)
    }

    open spec fn encodable(m: i32) -> bool {
        true
    }

    fn parse(cur: &mut &[u8]) -> (r: Result<i32, ParseWireError>) {
        match take_u32(cur) {
            Ok(v) => Ok(v as i32),
            Err(_) => {
                assert(cur@ =~= old(cur)@.skip(0));
                Err(ParseWireError::UnexpectedEnd)
            },
        }
    }

    fn serialize(&self, out: &mut Vec<u8>, pos: &mut usize) -> (r: Result<(), UnexpectedEnd>) {
        put_u32(out, pos, *self as u32)
    }

    fn wire_size(&self) -> (r: usize) {
        4
    }

    proof fn lemma_decode_len(b: Seq<u8>) {
    }

    proof fn lemma_round_trip(m: i32, rest: Seq<u8>) {
        crate::bytes::lemma_u32_le(m as u32, Seq::empty());
        assert((m as u32) as i32 == m) by (bit_vector);
    }
}

/// One byte: `0` or `1` written, any non-zero read as `true`.
impl Wire for bool {
    type Model = bool;

    open spec fn model(&self) -> bool {
        *self
    }

    open spec fn encode(m: bool) -> Seq<u8> {
        seq![if m { 1u8 } else { 0u8 }]
    }

    open spec fn decode(b: Seq<u8>) -> (Result<bool, ParseWireError>, int) {
        decode_fixed(b, 1, |b: Seq<u8>| b[0] != 0)
    }

    open spec fn encodable(m: bool) -> bool {
        true
    }

    fn parse(cur: &mut &[u8]) -> (r: Result<bool, ParseWireError>) {
        match take_u8(cur) {
            Ok(v) => Ok(v != 0),
            Err(_) => {
                assert(cur@ =~= old(cur)@.skip(0));
                Err(ParseWireError::UnexpectedEnd)
            },
        }
    }

    fn serialize(&self, out: &mut Vec<u8>, pos: &mut usize) -> (r: Result<(), UnexpectedEnd>) {
        put_u8(out, pos, if *self { 1 } else { 0 })
    }

    fn wire_size(&self) -> (r: usize) {
        1
    }

    proof fn lemma_decode_len(b: Seq<u8>) {
    }

    proof fn lemma_round_trip(m: bool, rest: Seq<u8>) {
    }
}

/// A `CDefString`: a four-byte reference into the compiled name table.
#[derive(Debug, Clone, Copy, PartialEq, Eq, PartialOrd, Ord, Hash, Default)]
pub struct DefString(pub i32);

/// A `CDefIndex`: a four-byte reference to another def's global entry index.
#[derive(Debug, Clone, Copy, PartialEq, Eq, PartialOrd, Ord, Hash, Default)]
pub struct DefIndex(pub i32);

impl Wire for DefString {
    type Model = i32;

    open spec fn model(&self) -> i32 {
        self.0
    }

    open spec fn encode(m: i32) -> Seq<u8> {
        <i32 as Wire>::encode(m)
    }

    open spec fn decode(b: Seq<u8>) -> (Result<i32, ParseWireError>, int) {
        <i32 as Wire>::decode(b)
    }

    open spec fn encodable(m: i32) -> bool {
        true
    }

    fn parse(cur: &mut &[u8]) -> (r: Result<DefString, ParseWireError>) {
        match <i32 as Wire>::parse(cur) {
            Ok(v) => Ok(DefString(v)),
            Err(e) => Err(e),
        }
    }

    fn serialize(&self, out: &mut Vec<u8>, pos: &mut usize) -> (r: Result<(), UnexpectedEnd>) {
        self.0.serialize(out, pos)
    }

    fn wire_size(&self) -> (r: usize) {
        4
    }

    proof fn lemma_decode_len(b: Seq<u8>) {
    }

    proof fn lemma_round_trip(m: i32, rest: Seq<u8>) {
        <i32 as Wire>::lemma_round_trip(m, rest);
    }
}

impl Wire for DefIndex {
    type Model = i32;

    open spec fn model(&self) -> i32 {
        self.0
    }

    open spec fn encode(m: i32) -> Seq<u8> {
        <i32 as Wire>::encode(m)
    }

    open spec fn decode(b: Seq<u8>) -> (Result<i32, ParseWireError>, int) {
        <i32 as Wire>::decode(b)
    }

    open spec fn encodable(m: i32) -> bool {
        true
    }

    fn parse(cur: &mut &[u8]) -> (r: Result<DefIndex, ParseWireError>) {
        match <i32 as Wire>::parse(cur) {
            Ok(v) => Ok(DefIndex(v)),
            Err(e) => Err(e),
        }
    }

    fn serialize(&self, out: &mut Vec<u8>, pos: &mut usize) -> (r: Result<(), UnexpectedEnd>) {
        self.0.serialize(out, pos)
    }

    fn wire_size(&self) -> (r: usize) {
        4
    }

    proof fn lemma_decode_len(b: Seq<u8>) {
    }

    proof fn lemma_round_trip(m: i32, rest: Seq<u8>) {
        <i32 as Wire>::lemma_round_trip(m, rest);
    }
}

// ── byte strings and text ─────────────────────────────────────────────────────

/// A length-prefixed byte string (`u32` length, then the raw bytes, no
/// terminator), as the game's `WriteString` writes it; bytes, since they
/// need not be UTF-8.
#[derive(Debug, Clone, PartialEq, Eq, Default)]
pub struct PString(pub Vec<u8>);

impl Wire for PString {
    type Model = Seq<u8>;

    open spec fn model(&self) -> Seq<u8> {
        self.0@
    }

    open spec fn encode(m: Seq<u8>) -> Seq<u8> {
        u32_le_bytes(m.len() as u32) + m
    }

    open spec fn decode(b: Seq<u8>) -> (Result<Seq<u8>, ParseWireError>, int) {
        if b.len() < 4 {
            (Err(ParseWireError::UnexpectedEnd), 0)
        } else if b.len() - 4 < u32_le(b) {
            (Err(ParseWireError::UnexpectedEnd), 4)
        } else {
            (Ok(b.subrange(4, 4 + u32_le(b))), 4 + u32_le(b))
        }
    }

    open spec fn encodable(m: Seq<u8>) -> bool {
        m.len() <= u32::MAX
    }

    fn parse(cur: &mut &[u8]) -> (r: Result<PString, ParseWireError>) {
        let ghost b = cur@;
        let len = match take_u32(cur) {
            Ok(v) => v as usize,
            Err(_) => {
                assert(cur@ =~= b.skip(0));
                return Err(ParseWireError::UnexpectedEnd);
            },
        };
        if cur.len() < len {
            return Err(ParseWireError::UnexpectedEnd);
        }
        let bytes = match take_bytes(cur, len) {
            Ok(x) => x,
            Err(_) => {
                return Err(ParseWireError::UnexpectedEnd);
            },
        };
        assert(bytes@ =~= b.subrange(4, 4 + len));
        assert(cur@ =~= b.skip(4 + len));
        let mut v: Vec<u8> = Vec::new();
        crate::bytes::append_bytes(&mut v, bytes);
        assert(v@ =~= bytes@);
        Ok(PString(v))
    }

    fn serialize(&self, out: &mut Vec<u8>, pos: &mut usize) -> (r: Result<(), UnexpectedEnd>) {
        let ghost d = out@;
        let ghost p = *pos as int;
        if self.0.len() > out.len() - *pos || 4 > out.len() - *pos - self.0.len() {
            return Err(UnexpectedEnd);
        }
        let _ = put_u32(out, pos, self.0.len() as u32);
        let _ = put_bytes(out, pos, self.0.as_slice());
        assert(out@ =~= splice(d, p, Self::encode(self.model())));
        Ok(())
    }

    fn wire_size(&self) -> (r: usize) {
        4 + self.0.len()
    }

    proof fn lemma_decode_len(b: Seq<u8>) {
    }

    proof fn lemma_round_trip(m: Seq<u8>, rest: Seq<u8>) {
        crate::bytes::lemma_u32_le(m.len() as u32, Seq::empty());
        let b = u32_le_bytes(m.len() as u32) + m + rest;
        assert(b =~= Self::encode(m) + rest);
        assert(b.subrange(4, 4 + m.len() as int) =~= m);
    }
}

/// The first NUL of `b` from `p` on is at `z` when `b` has none from `p`
/// up to `z`.
proof fn lemma_find_nul(b: Seq<u8>, p: int, z: int)
    requires
        0 <= p <= z < b.len(),
        b[z] == 0,
        forall|i: int| p <= i < z ==> b[i] != 0,
    ensures
        find_byte(b, p, 0) == Some(z),
    decreases z - p,
{
    if p < z {
        lemma_find_nul(b, p + 1, z);
    }
}

/// The first NUL of `b` lies in `b`, at or after `p`, and none comes before it.
proof fn lemma_find_nul_range(b: Seq<u8>, p: int)
    requires
        0 <= p,
    ensures
        find_byte(b, p, 0) matches Some(z) ==> p <= z < b.len() && b[z] == 0,
    decreases b.len() - p,
{
    if 0 <= p < b.len() && b[p] != 0 {
        lemma_find_nul_range(b, p + 1);
    }
}

/// `CCharString`: UTF-8, NUL-terminated. Its model is its characters.
impl Wire for String {
    type Model = Seq<char>;

    open spec fn model(&self) -> Seq<char> {
        self@
    }

    open spec fn encode(m: Seq<char>) -> Seq<u8> {
        encode_utf8(m) + seq![0u8]
    }

    open spec fn decode(b: Seq<u8>) -> (Result<Seq<char>, ParseWireError>, int) {
        match find_byte(b, 0, 0) {
            None => (Err(ParseWireError::Utf8(NulTerminatedUtf8Error::Unterminated)), 0),
            Some(z) => if valid_utf8(b.take(z)) {
                (Ok(decode_utf8(b.take(z))), z + 1)
            } else {
                (Err(ParseWireError::Utf8(NulTerminatedUtf8Error::NotUtf8)), z + 1)
            },
        }
    }

    /// No NUL byte inside the string.
    open spec fn encodable(m: Seq<char>) -> bool {
        !encode_utf8(m).contains(0u8)
    }

    fn parse(cur: &mut &[u8]) -> (r: Result<String, ParseWireError>) {
        let ghost b = cur@;
        let z = match find_byte_exec(*cur, 0, 0) {
            Some(z) => z,
            None => {
                assert(cur@ =~= b.skip(0));
                return Err(ParseWireError::Utf8(NulTerminatedUtf8Error::Unterminated));
            },
        };
        let bytes = match take_bytes(cur, z) {
            Ok(x) => x,
            Err(_) => {
                return Err(ParseWireError::UnexpectedEnd);
            },
        };
        let _ = take_u8(cur);
        assert(cur@ =~= b.skip(z + 1));
        match str_from_utf8(bytes) {
            Some(s) => {
                proof {
                    vstd::utf8::encode_utf8_decode_utf8(s@);
                }
                Ok(s.to_owned())
            },
            None => Err(ParseWireError::Utf8(NulTerminatedUtf8Error::NotUtf8)),
        }
    }

    fn serialize(&self, out: &mut Vec<u8>, pos: &mut usize) -> (r: Result<(), UnexpectedEnd>) {
        let ghost d = out@;
        let ghost p = *pos as int;
        let bytes = self.as_str().as_bytes();
        if bytes.len() >= out.len() - *pos {
            return Err(UnexpectedEnd);
        }
        let _ = put_bytes(out, pos, bytes);
        let _ = put_u8(out, pos, 0);
        assert(out@ =~= splice(d, p, Self::encode(self.model())));
        Ok(())
    }

    fn wire_size(&self) -> (r: usize) {
        self.as_str().len() + 1
    }

    proof fn lemma_decode_len(b: Seq<u8>) {
        lemma_find_nul_range(b, 0);
    }

    proof fn lemma_round_trip(m: Seq<char>, rest: Seq<u8>) {
        let e = encode_utf8(m);
        let b = e + seq![0u8] + rest;
        assert forall|i: int| 0 <= i < e.len() implies b[i] != 0 by {
            assert(b[i] == e[i]);
            if e[i] == 0 {
                assert(e.contains(0u8));
            }
        }
        lemma_find_nul(b, 0, e.len() as int);
        assert(b.take(e.len() as int) =~= e);
        vstd::utf8::encode_utf8_valid_utf8(m);
        vstd::utf8::encode_utf8_decode_utf8(m);
        assert(b =~= Self::encode(m) + rest);
    }
}


// ── UTF-16 ────────────────────────────────────────────────────────────────────

/// The UTF-16 code units of `c`: one below `0x10000`, else a surrogate pair.
pub open spec fn utf16_of_char(c: char) -> Seq<u16> {
    let v = c as u32;
    if v < 0x10000 {
        seq![v as u16]
    } else {
        seq![(0xD800 + (v - 0x10000) / 0x400) as u16, (0xDC00 + (v - 0x10000) % 0x400) as u16]
    }
}

/// The UTF-16 code units of `s`.
pub open spec fn utf16_of(s: Seq<char>) -> Seq<u16>
    decreases s.len(),
{
    if s.len() == 0 {
        Seq::empty()
    } else {
        utf16_of_char(s[0]) + utf16_of(s.skip(1))
    }
}

/// `a` in front of the characters of `o`.
pub open spec fn prepend_chars(a: Seq<char>, o: Option<Seq<char>>) -> Option<Seq<char>> {
    match o {
        Some(t) => Some(a + t),
        None => None,
    }
}

/// The characters of UTF-16 code units, or `None` at a surrogate without
/// its partner.
pub open spec fn chars_of_utf16(u: Seq<u16>) -> Option<Seq<char>>
    decreases u.len(),
{
    if u.len() == 0 {
        Some(Seq::empty())
    } else if u[0] < 0xD800 || u[0] >= 0xE000 {
        prepend_chars(seq![(u[0] as u32) as char], chars_of_utf16(u.skip(1)))
    } else if u[0] < 0xDC00 && u.len() >= 2 && 0xDC00 <= u[1] < 0xE000 {
        prepend_chars(
            seq![(0x10000 + (u[0] - 0xD800) * 0x400 + (u[1] - 0xDC00)) as u32 as char],
            chars_of_utf16(u.skip(2)),
        )
    } else {
        None
    }
}

/// The little-endian bytes of code units.
pub open spec fn u16s_le_bytes(u: Seq<u16>) -> Seq<u8> {
    Seq::new(2 * u.len(), |i: int| if i % 2 == 0 { u[i / 2] as u8 } else { (u[i / 2] >> 8u16) as u8 })
}

/// The code units at the front of `b`, `n` of them.
pub open spec fn u16s_le(b: Seq<u8>, n: nat) -> Seq<u16> {
    Seq::new(n, |k: int| u16_le(b.skip(2 * k)))
}

/// The index of the first zero code unit of `b` from unit `i` on.
pub open spec fn find_nul_unit(b: Seq<u8>, i: int) -> Option<int>
    decreases b.len() - 2 * i,
{
    if i < 0 || b.len() < 2 * i + 2 {
        None
    } else if u16_le(b.skip(2 * i)) == 0 {
        Some(i)
    } else {
        find_nul_unit(b, i + 1)
    }
}

proof fn lemma_find_nul_unit_range(b: Seq<u8>, i: int)
    requires
        0 <= i,
    ensures
        find_nul_unit(b, i) matches Some(z) ==> i <= z && 2 * z + 2 <= b.len(),
    decreases b.len() - 2 * i,
{
    if b.len() >= 2 * i + 2 && u16_le(b.skip(2 * i)) != 0 {
        lemma_find_nul_unit_range(b, i + 1);
    }
}

/// Decoding what encoding gave: a character's units read back as it.
proof fn lemma_utf16_char(c: char, rest: Seq<u16>)
    ensures
        chars_of_utf16(utf16_of_char(c) + rest) == prepend_chars(seq![c], chars_of_utf16(rest)),
{
    let v = c as u32;
    vstd::utf8::char_is_scalar(c);
    let u = utf16_of_char(c) + rest;
    if v < 0x10000 {
        assert(u.skip(1) =~= rest);
        assert((v as u16) as u32 == v);
        assert(((u[0] as u32) as char) == c);
    } else {
        let q = (v - 0x10000) / 0x400;
        let r = (v - 0x10000) % 0x400;
        assert(v <= 0x10FFFF);
        assert(0 <= q < 0x400);
        assert(0 <= r < 0x400);
        assert(u[0] == 0xD800 + q);
        assert(u[1] == 0xDC00 + r);
        assert(u.skip(2) =~= rest);
        assert(0x10000 + q * 0x400 + r == v);
        assert(((0x10000 + (u[0] - 0xD800) * 0x400 + (u[1] - 0xDC00)) as u32 as char) == c);
    }
}

/// Characters without `'\0'` read back from their units, which hold no zero.
proof fn lemma_utf16_round_trip(s: Seq<char>)
    ensures
        chars_of_utf16(utf16_of(s)) == Some(s),
        (forall|i: int| 0 <= i < s.len() ==> s[i] != '\0') ==> !utf16_of(s).contains(0u16),
    decreases s.len(),
{
    if s.len() > 0 {
        lemma_utf16_round_trip(s.skip(1));
        lemma_utf16_char(s[0], utf16_of(s.skip(1)));
        assert(seq![s[0]] + s.skip(1) =~= s);
        if forall|i: int| 0 <= i < s.len() ==> s[i] != '\0' {
            assert(forall|i: int| 0 <= i < s.skip(1).len() ==> s.skip(1)[i] == s[i + 1]);
            assert(s[0] != '\0');
            let u = utf16_of(s);
            let h = utf16_of_char(s[0]);
            assert forall|k: int| 0 <= k < u.len() implies u[k] != 0u16 by {
                if k < h.len() {
                    assert(u[k] == h[k]);
                } else {
                    assert(u[k] == utf16_of(s.skip(1))[k - h.len()]);
                }
            }
        }
    }
}

/// A string stored as `CWideString`: UTF-16LE, NUL-terminated. A type of its
/// own, so that a field's declaration picks the encoding.
#[derive(Debug, Clone, PartialEq, Eq, PartialOrd, Ord, Hash, Default)]
pub struct WStr(pub String);

/// A `String` with the characters `v`, by `FromIterator<char>`.
#[verifier::external_body]
fn string_from_chars(v: &[char]) -> (r: String)
    ensures
        r@ == v@,
{
    v.iter().collect::<String>()
}

/// Decodes code units into characters (see [`chars_of_utf16`]).
fn decode_utf16_units(u: &[u16]) -> (r: Option<Vec<char>>)
    ensures
        r matches Some(v) ==> chars_of_utf16(u@) == Some(v@),
        r is None ==> chars_of_utf16(u@) is None,
{
    let mut out: Vec<char> = Vec::new();
    let mut i: usize = 0;
    proof {
        assert(u@.skip(0) =~= u@);
        if let Some(t) = chars_of_utf16(u@) {
            assert(Seq::<char>::empty() + t =~= t);
        }
    }
    while i < u.len()
        invariant
            i <= u@.len(),
            chars_of_utf16(u@) == prepend_chars(out@, chars_of_utf16(u@.skip(i as int))),
        decreases u@.len() - i,
    {
        let a = u[i];
        let ghost rest = u@.skip(i as int);
        if a < 0xD800 || a >= 0xE000 {
            let c = char_of_bmp_unit(a);
            assert(rest.skip(1) =~= u@.skip(i + 1));
            out.push(c);
            i += 1;
        } else if a < 0xDC00 && i + 1 < u.len() && 0xDC00 <= u[i + 1] && u[i + 1] < 0xE000 {
            let c = char_of_surrogates(a, u[i + 1]);
            assert(rest.skip(2) =~= u@.skip(i + 2));
            out.push(c);
            i += 2;
        } else {
            return None;
        }
        proof {
            assert(out@ =~= out@.drop_last() + seq![out@.last()]);
        }
    }
    assert(u@.skip(i as int) =~= Seq::<u16>::empty());
    assert(out@ + Seq::<char>::empty() =~= out@);
    Some(out)
}

/// The character of a code unit outside the surrogate range.
fn char_of_bmp_unit(a: u16) -> (c: char)
    requires
        a < 0xD800 || a >= 0xE000,
    ensures
        c == (a as u32) as char,
{
    char_from_u32((a as u32))
}

/// The character of a surrogate pair.
fn char_of_surrogates(a: u16, b: u16) -> (c: char)
    requires
        0xD800 <= a < 0xDC00,
        0xDC00 <= b < 0xE000,
    ensures
        c == (0x10000 + (a - 0xD800) * 0x400 + (b - 0xDC00)) as u32 as char,
{
    let v: u32 = 0x10000 + ((a as u32) - 0xD800) * 0x400 + ((b as u32) - 0xDC00);
    char_from_u32(v)
}

/// `char::from_u32`: the character of a Unicode scalar value (below
/// `0x110000` and outside the surrogates `0xD800..0xE000`), `None` for any
/// other number, as std documents it.
pub assume_specification[core::char::from_u32](i: u32) -> (r: Option<char>)
    ensures
        (i < 0xD800 || (0xE000 <= i < 0x110000)) ==> r == Some(i as char),
        !(i < 0xD800 || (0xE000 <= i < 0x110000)) ==> r is None,
;

/// The character of a Unicode scalar value.
fn char_from_u32(v: u32) -> (c: char)
    requires
        v < 0xD800 || (0xE000 <= v < 0x110000),
    ensures
        c == v as char,
{
    match core::char::from_u32(v) {
        Some(c) => c,
        None => '\0',
    }
}


/// The units of a string split where the string splits.
proof fn lemma_utf16_split(s: Seq<char>, i: int)
    requires
        0 <= i <= s.len(),
    ensures
        utf16_of(s) == utf16_of(s.take(i)) + utf16_of(s.skip(i)),
    decreases s.len(),
{
    if i == 0 {
        assert(s.take(0) =~= Seq::<char>::empty());
        assert(s.skip(0) =~= s);
        assert(Seq::<u16>::empty() + utf16_of(s) =~= utf16_of(s));
    } else {
        lemma_utf16_split(s.skip(1), i - 1);
        assert(s.take(i)[0] == s[0]);
        assert(s.take(i).skip(1) =~= s.skip(1).take(i - 1));
        assert(s.skip(1).skip(i - 1) =~= s.skip(i));
        assert(utf16_of(s) =~= utf16_of(s.take(i)) + utf16_of(s.skip(i)));
    }
}

/// The units of one more character.
proof fn lemma_utf16_push(s: Seq<char>, i: int)
    requires
        0 <= i < s.len(),
    ensures
        utf16_of(s.take(i + 1)) == utf16_of(s.take(i)) + utf16_of_char(s[i]),
{
    lemma_utf16_split(s.take(i + 1), i);
    assert(s.take(i + 1).take(i) =~= s.take(i));
    let one = s.take(i + 1).skip(i);
    assert(one =~= seq![s[i]]);
    assert(one.skip(1) =~= Seq::<char>::empty());
    assert(one[0] == s[i]);
    assert(utf16_of(one.skip(1)) == Seq::<u16>::empty());
    assert(utf16_of(one) == utf16_of_char(one[0]) + utf16_of(one.skip(1)));
    assert(utf16_of(one) =~= utf16_of_char(s[i]));
}

/// The first zero unit of `b` from unit `i` on is unit `z` when the units in
/// between are not zero.
proof fn lemma_find_nul_unit(b: Seq<u8>, i: int, z: int)
    requires
        0 <= i <= z,
        2 * z + 2 <= b.len(),
        u16_le(b.skip(2 * z)) == 0,
        forall|k: int| i <= k < z ==> u16_le(#[trigger] b.skip(2 * k)) != 0,
    ensures
        find_nul_unit(b, i) == Some(z),
    decreases z - i,
{
    if i < z {
        lemma_find_nul_unit(b, i + 1, z);
    }
}

/// The bytes of code units give the units back.
proof fn lemma_u16s_le(a: Seq<u16>, rest: Seq<u8>, k: int)
    requires
        0 <= k < a.len(),
    ensures
        u16_le((u16s_le_bytes(a) + rest).skip(2 * k)) == a[k],
{
    let b = (u16s_le_bytes(a) + rest).skip(2 * k);
    crate::bytes::lemma_u16_le(a[k], Seq::empty());
    assert(b[0] == u16_le_bytes(a[k])[0]);
    assert(b[1] == u16_le_bytes(a[k])[1]);
}


impl From<String> for WStr {
    fn from(value: String) -> (r: WStr) {
        WStr(value)
    }
}

impl vstd::std_specs::convert::FromSpecImpl<String> for WStr {
    open spec fn obeys_from_spec() -> bool {
        true
    }

    open spec fn from_spec(v: String) -> WStr {
        WStr(v)
    }
}

impl From<&str> for WStr {
    fn from(value: &str) -> (r: WStr)
        ensures
            r.0@ == value@,
    {
        WStr(value.to_owned())
    }
}

impl vstd::std_specs::convert::FromSpecImpl<&str> for WStr {
    /// A `String` is not determined by its characters in specifications, so
    /// the conversion is stated on the `from` itself.
    open spec fn obeys_from_spec() -> bool {
        false
    }

    open spec fn from_spec(v: &str) -> WStr {
        arbitrary()
    }
}

impl WStr {
    /// The text of the string.
    pub fn to_string(&self) -> (r: String)
        ensures
            r@ == self.0@,
    {
        self.0.clone()
    }
}

/// The code units of `c`, computed.
fn push_utf16(units: &mut Vec<u16>, c: char)
    ensures
        final(units)@ == old(units)@ + utf16_of_char(c),
{
    proof {
        vstd::utf8::char_is_scalar(c);
    }
    let v = c as u32;
    if v < 0x10000 {
        units.push(v as u16);
    } else {
        let w = v - 0x10000;
        units.push((0xD800 + w / 0x400) as u16);
        units.push((0xDC00 + w % 0x400) as u16);
    }
    assert(units@ =~= old(units)@ + utf16_of_char(c));
}

/// The UTF-16 code units of a string.
fn utf16_units(s: &str) -> (r: Vec<u16>)
    ensures
        r@ == utf16_of(s@),
{
    let n = s.unicode_len();
    let mut units: Vec<u16> = Vec::new();
    let mut i: usize = 0;
    proof {
        assert(s@.take(0) =~= Seq::<char>::empty());
    }
    while i < n
        invariant
            n == s@.len(),
            i <= n,
            units@ == utf16_of(s@.take(i as int)),
        decreases n - i,
    {
        let c = s.get_char(i);
        proof {
            lemma_utf16_push(s@, i as int);
        }
        push_utf16(&mut units, c);
        i += 1;
    }
    assert(s@.take(n as int) =~= s@);
    units
}

impl Wire for WStr {
    type Model = Seq<char>;

    open spec fn model(&self) -> Seq<char> {
        self.0@
    }

    open spec fn encode(m: Seq<char>) -> Seq<u8> {
        u16s_le_bytes(utf16_of(m).push(0))
    }

    open spec fn decode(b: Seq<u8>) -> (Result<Seq<char>, ParseWireError>, int) {
        match find_nul_unit(b, 0) {
            None => (Err(ParseWireError::Utf16(NulTerminatedUtf16Error::Unterminated)), 0),
            Some(z) => match chars_of_utf16(u16s_le(b, z as nat)) {
                Some(cs) => (Ok(cs), 2 * z + 2),
                None => (Err(ParseWireError::Utf16(NulTerminatedUtf16Error::NotUtf16)), 2 * z + 2),
            },
        }
    }

    /// No `'\0'` inside the string.
    open spec fn encodable(m: Seq<char>) -> bool {
        forall|i: int| 0 <= i < m.len() ==> m[i] != '\0'
    }

    fn parse(cur: &mut &[u8]) -> (r: Result<WStr, ParseWireError>) {
        let ghost b = cur@;
        let mut probe: &[u8] = *cur;
        let mut units: Vec<u16> = Vec::new();
        let mut done = false;
        while !done
            invariant
                cur@ == b,
                b == old(cur)@,
                2 * units@.len() <= b.len(),
                units@ == u16s_le(b, units@.len()),
                !done ==> probe@ == b.skip(2 * units@.len() as int),
                !done ==> find_nul_unit(b, 0) == find_nul_unit(b, units@.len() as int),
                done ==> find_nul_unit(b, 0) == Some(units@.len() as int),
                done ==> probe@ == b.skip(2 * units@.len() as int + 2),
            decreases probe@.len(),
        {
            let ghost k = units@.len() as int;
            let x = match take_u16(&mut probe) {
                Ok(x) => x,
                Err(_) => {
                    assert(cur@ =~= b.skip(0));
                    return Err(ParseWireError::Utf16(NulTerminatedUtf16Error::Unterminated));
                },
            };
            assert(probe@ =~= b.skip(2 * k + 2));
            if x == 0 {
                done = true;
            } else {
                units.push(x);
                assert(units@ =~= u16s_le(b, units@.len()));
            }
        }
        *cur = probe;
        match decode_utf16_units(units.as_slice()) {
            Some(chars) => Ok(WStr(string_from_chars(chars.as_slice()))),
            None => Err(ParseWireError::Utf16(NulTerminatedUtf16Error::NotUtf16)),
        }
    }

    fn serialize(&self, out: &mut Vec<u8>, pos: &mut usize) -> (r: Result<(), UnexpectedEnd>) {
        let ghost d = out@;
        let ghost p = *pos as int;
        let mut units = utf16_units(self.0.as_str());
        units.push(0);
        let ghost all = units@;
        if units.len() > (out.len() - *pos) / 2 {
            return Err(UnexpectedEnd);
        }
        let mut k: usize = 0;
        proof {
            assert(u16s_le_bytes(all.take(0)) =~= Seq::<u8>::empty());
            assert(out@ =~= splice(d, p, Seq::<u8>::empty()));
        }
        while k < units.len()
            invariant
                units@ == all,
                all == utf16_of(self.0@).push(0),
                d == old(out)@,
                p == *old(pos),
                p + 2 * all.len() <= d.len(),
                k <= all.len(),
                out@.len() == d.len(),
                *pos == p + 2 * k,
                out@ == splice(d, p, u16s_le_bytes(all.take(k as int))),
            decreases all.len() - k,
        {
            let _ = put_u16(out, pos, units[k]);
            k += 1;
            assert(u16s_le_bytes(all.take(k as int)) =~= u16s_le_bytes(all.take(k - 1)) + u16_le_bytes(all[k - 1]));
            assert(out@ =~= splice(d, p, u16s_le_bytes(all.take(k as int))));
        }
        assert(all.take(all.len() as int) =~= all);
        Ok(())
    }

    fn wire_size(&self) -> (r: usize) {
        let ghost m = self.0@;
        let n = self.0.as_str().unicode_len();
        let mut count: usize = 0;
        let mut i: usize = 0;
        proof {
            assert(m.take(0) =~= Seq::<char>::empty());
        }
        while i < n
            invariant
                n == m.len(),
                m == self.0@,
                i <= n,
                2 * (utf16_of(m).len() + 1) <= usize::MAX,
                count == utf16_of(m.take(i as int)).len(),
            decreases n - i,
        {
            let c = self.0.as_str().get_char(i);
            proof {
                lemma_utf16_push(m, i as int);
                lemma_utf16_split(m, i + 1);
                vstd::utf8::char_is_scalar(c);
            }
            if (c as u32) < 0x10000 {
                count += 1;
            } else {
                count += 2;
            }
            i += 1;
        }
        assert(m.take(n as int) =~= m);
        (count + 1) * 2
    }

    proof fn lemma_decode_len(b: Seq<u8>) {
        lemma_find_nul_unit_range(b, 0);
    }

    proof fn lemma_round_trip(m: Seq<char>, rest: Seq<u8>) {
        lemma_utf16_round_trip(m);
        let u = utf16_of(m);
        let a = u.push(0);
        let n = u.len() as int;
        let b = u16s_le_bytes(a) + rest;
        assert forall|k: int| 0 <= k < n implies u16_le(#[trigger] b.skip(2 * k)) != 0 by {
            lemma_u16s_le(a, rest, k);
            assert(a[k] == u[k]);
            if u[k] == 0 {
                assert(u.contains(0u16));
            }
        }
        lemma_u16s_le(a, rest, n);
        lemma_find_nul_unit(b, 0, n);
        assert forall|k: int| 0 <= k < n implies #[trigger] u16s_le(b, n as nat)[k] == u[k] by {
            lemma_u16s_le(a, rest, k);
        }
        assert(u16s_le(b, n as nat) =~= u);
    }
}

/// A key and its value, one after the other, as the pairs of a map.
impl<K: Wire, V: Wire> Wire for (K, V) {
    type Model = (K::Model, V::Model);

    open spec fn model(&self) -> (K::Model, V::Model) {
        (self.0.model(), self.1.model())
    }

    open spec fn encode(m: (K::Model, V::Model)) -> Seq<u8> {
        K::encode(m.0) + V::encode(m.1)
    }

    open spec fn decode(b: Seq<u8>) -> (Result<(K::Model, V::Model), ParseWireError>, int) {
        let (rk, nk) = K::decode(b);
        match rk {
            Err(e) => (Err(e), nk),
            Ok(k) => {
                let (rv, nv) = V::decode(b.skip(nk));
                match rv {
                    Err(e) => (Err(e), nk + nv),
                    Ok(v) => (Ok((k, v)), nk + nv),
                }
            },
        }
    }

    open spec fn encodable(m: (K::Model, V::Model)) -> bool {
        K::encodable(m.0) && V::encodable(m.1)
    }

    fn parse(cur: &mut &[u8]) -> (r: Result<(K, V), ParseWireError>) {
        let ghost b = cur@;
        proof {
            K::lemma_decode_len(b);
        }
        let key = match K::parse(cur) {
            Ok(k) => k,
            Err(e) => {
                return Err(e);
            },
        };
        let ghost nk = K::decode(b).1;
        proof {
            V::lemma_decode_len(b.skip(nk));
        }
        let value = match V::parse(cur) {
            Ok(v) => v,
            Err(e) => {
                assert(cur@ =~= b.skip(nk + V::decode(b.skip(nk)).1));
                return Err(e);
            },
        };
        assert(cur@ =~= b.skip(nk + V::decode(b.skip(nk)).1));
        Ok((key, value))
    }

    fn serialize(&self, out: &mut Vec<u8>, pos: &mut usize) -> (r: Result<(), UnexpectedEnd>) {
        let ghost d = out@;
        let ghost p = *pos as int;
        match self.0.serialize(out, pos) {
            Ok(()) => {},
            Err(e) => {
                return Err(e);
            },
        }
        match self.1.serialize(out, pos) {
            Ok(()) => {},
            Err(e) => {
                return Err(e);
            },
        }
        assert(out@ =~= splice(d, p, Self::encode(self.model())));
        Ok(())
    }

    fn wire_size(&self) -> (r: usize) {
        self.0.wire_size() + self.1.wire_size()
    }

    proof fn lemma_decode_len(b: Seq<u8>) {
        K::lemma_decode_len(b);
        V::lemma_decode_len(b.skip(K::decode(b).1));
    }

    proof fn lemma_round_trip(m: (K::Model, V::Model), rest: Seq<u8>) {
        let ek = K::encode(m.0);
        let ev = V::encode(m.1);
        K::lemma_round_trip(m.0, ev + rest);
        assert(ek + (ev + rest) =~= Self::encode(m) + rest);
        assert((Self::encode(m) + rest).skip(ek.len() as int) =~= ev + rest);
        V::lemma_round_trip(m.1, rest);
    }
}


// ── enumerations ──────────────────────────────────────────────────────────────

/// Four bytes naming a variant of `E`'s table; a value outside the table is
/// an error.
pub open spec fn decode_enum<E: DefEnum>(b: Seq<u8>) -> (Result<E, ParseWireError>, int) {
    if b.len() < 4 {
        (Err(ParseWireError::UnexpectedEnd), 0)
    } else {
        match E::lookup(u32_le(b) as i32) {
            Some(e) => (Ok(e), 4),
            None => (Err(ParseWireError::InvalidEnumValue { value: u32_le(b) as i32 }), 4),
        }
    }
}

/// Reads a def enum value (see [`decode_enum`]).
pub fn parse_enum<E: DefEnum>(cur: &mut &[u8]) -> (r: Result<E, ParseWireError>)
    ensures
        r == decode_enum::<E>(old(cur)@).0,
        final(cur)@ == old(cur)@.skip(decode_enum::<E>(old(cur)@).1),
{
    let value = match take_u32(cur) {
        Ok(v) => v as i32,
        Err(_) => {
            assert(cur@ =~= old(cur)@.skip(0));
            return Err(ParseWireError::UnexpectedEnd);
        },
    };
    match E::from_i32(value) {
        Some(e) => Ok(e),
        None => Err(ParseWireError::InvalidEnumValue { value }),
    }
}

/// A def enum value reads back from its four bytes.
pub proof fn lemma_enum_round_trip<E: DefEnum>(e: E, rest: Seq<u8>)
    ensures
        decode_enum::<E>(u32_le_bytes(e.wire_value() as u32) + rest) == (Ok::<E, ParseWireError>(e), 4int),
{
    let v = e.wire_value();
    crate::bytes::lemma_u32_le(v as u32, Seq::empty());
    assert((v as u32) as i32 == v) by (bit_vector);
    E::lemma_lookup_wire_value(e);
}

// ── containers ────────────────────────────────────────────────────────────────

/// The bytes of the values `m`, one after the other.
pub open spec fn encode_items<T: Wire>(m: Seq<T::Model>) -> Seq<u8>
    decreases m.len(),
{
    if m.len() == 0 {
        Seq::empty()
    } else {
        encode_items::<T>(m.drop_last()) + T::encode(m.last())
    }
}

/// Parsing `k` values from `p` on in `b`: the values or the first error,
/// wrapped with the index of the element it came from; and where parsing
/// stopped.
pub open spec fn decode_items<T: Wire>(b: Seq<u8>, p: int, k: nat) -> (Result<Seq<T::Model>, ParseWireError>, int)
    decreases k,
{
    if k == 0 {
        (Ok(Seq::empty()), p)
    } else {
        let (r, q) = decode_items::<T>(b, p, (k - 1) as nat);
        match r {
            Err(e) => (Err(e), q),
            Ok(s) => {
                let (x, n) = T::decode(b.skip(q));
                match x {
                    Ok(v) => (Ok(s.push(v)), q + n),
                    Err(e) => (Err(ParseWireError::Item { index: (k - 1) as usize, inner: Box::new(e) }), q + n),
                }
            },
        }
    }
}

pub(crate) proof fn lemma_decode_items_len<T: Wire>(b: Seq<u8>, p: int, k: nat)
    requires
        0 <= p <= b.len(),
    ensures
        p <= decode_items::<T>(b, p, k).1 <= b.len(),
        decode_items::<T>(b, p, k).0 matches Ok(s) ==> s.len() == k,
    decreases k,
{
    if k > 0 {
        lemma_decode_items_len::<T>(b, p, (k - 1) as nat);
        let q = decode_items::<T>(b, p, (k - 1) as nat).1;
        T::lemma_decode_len(b.skip(q));
    }
}

/// The bytes of one value.
pub(crate) proof fn lemma_encode_one<T: Wire>(x: T::Model)
    ensures
        encode_items::<T>(seq![x]) == T::encode(x),
{
    let s = seq![x];
    assert(s.drop_last() =~= Seq::<T::Model>::empty());
    assert(s.last() == x);
    assert(encode_items::<T>(s.drop_last()) == Seq::<u8>::empty());
    assert(encode_items::<T>(s) == encode_items::<T>(s.drop_last()) + T::encode(s.last()));
    assert(Seq::<u8>::empty() + T::encode(x) =~= T::encode(x));
}

/// Once parsing elements has failed, parsing more of them fails the same way.
pub(crate) proof fn lemma_decode_items_stays<T: Wire>(b: Seq<u8>, p: int, j: nat, k: nat)
    requires
        j <= k,
        decode_items::<T>(b, p, j).0 is Err,
    ensures
        decode_items::<T>(b, p, k) == decode_items::<T>(b, p, j),
    decreases k - j,
{
    if j < k {
        lemma_decode_items_stays::<T>(b, p, j, (k - 1) as nat);
    }
}

/// The bytes of values split where the values split.
pub(crate) proof fn lemma_encode_items_split<T: Wire>(m: Seq<T::Model>, k: int)
    requires
        0 <= k <= m.len(),
    ensures
        encode_items::<T>(m) == encode_items::<T>(m.take(k)) + encode_items::<T>(m.skip(k)),
    decreases m.len(),
{
    if k == m.len() {
        assert(m.take(k) =~= m);
        assert(m.skip(k) =~= Seq::<T::Model>::empty());
        assert(encode_items::<T>(m) + Seq::<u8>::empty() =~= encode_items::<T>(m));
    } else {
        lemma_encode_items_split::<T>(m.drop_last(), k);
        assert(m.drop_last().take(k) =~= m.take(k));
        assert(m.skip(k).drop_last() =~= m.drop_last().skip(k));
        assert(m.skip(k).last() == m.last());
        assert(encode_items::<T>(m.skip(k)) == encode_items::<T>(m.skip(k).drop_last()) + T::encode(m.skip(k).last()));
        assert(encode_items::<T>(m) =~= encode_items::<T>(m.take(k)) + encode_items::<T>(m.skip(k)));
    }
}

/// The values of `m` with the bytes of their one-by-one encoding, followed
/// by anything, read back as `m`.
pub(crate) proof fn lemma_decode_items_round_trip<T: Wire>(m: Seq<T::Model>, head: Seq<u8>, rest: Seq<u8>, k: nat)
    requires
        k <= m.len(),
        forall|i: int| 0 <= i < m.len() ==> T::encodable(#[trigger] m[i]),
    ensures
        decode_items::<T>(head + encode_items::<T>(m) + rest, head.len() as int, k) == (
            Ok::<Seq<T::Model>, ParseWireError>(m.take(k as int)),
            (head.len() + encode_items::<T>(m.take(k as int)).len()) as int,
        ),
    decreases k,
{
    let b = head + encode_items::<T>(m) + rest;
    if k == 0 {
        assert(m.take(0) =~= Seq::<T::Model>::empty());
    } else {
        let j = (k - 1) as int;
        lemma_decode_items_round_trip::<T>(m, head, rest, (k - 1) as nat);
        let q = (head.len() + encode_items::<T>(m.take(j)).len()) as int;
        lemma_encode_items_split::<T>(m, j);
        let tail = m.skip(j);
        lemma_encode_items_split::<T>(tail, 1);
        assert(tail.take(1) =~= seq![m[j]]);
        lemma_encode_one::<T>(m[j]);
        assert(tail.skip(1) =~= m.skip(k as int));
        let after = encode_items::<T>(m.skip(k as int)) + rest;
        assert(b.skip(q) =~= T::encode(m[j]) + after);
        T::lemma_round_trip(m[j], after);
        assert(m.take(j).push(m[j]) =~= m.take(k as int));
        assert(m.take(k as int).drop_last() =~= m.take(j));
    }
}

/// `u32` count, then the elements.
impl<T: Wire> Wire for Vec<T> {
    type Model = Seq<T::Model>;

    open spec fn model(&self) -> Seq<T::Model> {
        self@.map_values(|x: T| x.model())
    }

    open spec fn encode(m: Seq<T::Model>) -> Seq<u8> {
        u32_le_bytes(m.len() as u32) + encode_items::<T>(m)
    }

    open spec fn decode(b: Seq<u8>) -> (Result<Seq<T::Model>, ParseWireError>, int) {
        if b.len() < 4 {
            (Err(ParseWireError::UnexpectedEnd), 0)
        } else {
            decode_items::<T>(b, 4, u32_le(b) as nat)
        }
    }

    open spec fn encodable(m: Seq<T::Model>) -> bool {
        &&& m.len() <= u32::MAX
        &&& forall|i: int| 0 <= i < m.len() ==> T::encodable(#[trigger] m[i])
    }

    fn parse(cur: &mut &[u8]) -> (r: Result<Vec<T>, ParseWireError>) {
        let ghost b = cur@;
        let count = match take_u32(cur) {
            Ok(c) => c,
            Err(_) => {
                assert(cur@ =~= b.skip(0));
                return Err(ParseWireError::UnexpectedEnd);
            },
        };
        let mut items: Vec<T> = Vec::new();
        let mut i: u32 = 0;
        proof {
            assert(items@.map_values(|x: T| x.model()) =~= Seq::<T::Model>::empty());
        }
        while i < count
            invariant
                b == old(cur)@,
                b.len() >= 4,
                count == u32_le(b),
                i <= count,
                4 <= decode_items::<T>(b, 4, i as nat).1 <= b.len(),
                cur@ == b.skip(decode_items::<T>(b, 4, i as nat).1),
                decode_items::<T>(b, 4, i as nat).0 == Ok::<Seq<T::Model>, ParseWireError>(
                    items@.map_values(|x: T| x.model()),
                ),
            decreases count - i,
        {
            let ghost q = decode_items::<T>(b, 4, i as nat).1;
            proof {
                T::lemma_decode_len(b.skip(q));
            }
            let x = match T::parse(cur) {
                Ok(x) => x,
                Err(e) => {
                    proof {
                        lemma_decode_items_stays::<T>(b, 4, (i + 1) as nat, count as nat);
                    }
                    assert(cur@ =~= b.skip(decode_items::<T>(b, 4, (i + 1) as nat).1));
                    return Err(ParseWireError::Item { index: i as usize, inner: Box::new(e) });
                },
            };
            let ghost before = items@;
            items.push(x);
            i += 1;
            proof {
                assert(items@.map_values(|x: T| x.model()) =~= before.map_values(|x: T| x.model()).push(x.model()));
                assert(cur@ =~= b.skip(decode_items::<T>(b, 4, i as nat).1));
            }
        }
        Ok(items)
    }

    fn serialize(&self, out: &mut Vec<u8>, pos: &mut usize) -> (r: Result<(), UnexpectedEnd>) {
        let ghost m = self.model();
        let ghost d = out@;
        let ghost p = *pos as int;
        proof {
            lemma_encode_items_split::<T>(m, 0);
        }
        match put_u32(out, pos, self.len() as u32) {
            Ok(()) => {},
            Err(e) => {
                return Err(e);
            },
        }
        let mut i: usize = 0;
        proof {
            assert(m.take(0) =~= Seq::<T::Model>::empty());
            assert(u32_le_bytes(self@.len() as u32) + encode_items::<T>(m.take(0)) =~= u32_le_bytes(self@.len() as u32));
        }
        while i < self.len()
            invariant
                m == self.model(),
                m.len() == self@.len(),
                i <= self@.len(),
                d == old(out)@,
                p == *old(pos),
                p + 4 <= d.len(),
                out@.len() == d.len(),
                *pos == p + 4 + encode_items::<T>(m.take(i as int)).len(),
                *pos <= out@.len(),
                out@ == splice(d, p, u32_le_bytes(self@.len() as u32) + encode_items::<T>(m.take(i as int))),
                encode_items::<T>(m) == encode_items::<T>(m.take(i as int)) + encode_items::<T>(m.skip(i as int)),
            decreases self@.len() - i,
        {
            let ghost before = out@;
            let ghost j = i as int;
            proof {
                lemma_encode_items_split::<T>(m.skip(j), 1);
                assert(m.skip(j).take(1) =~= seq![m[j]]);
                lemma_encode_one::<T>(m[j]);
                assert(m.skip(j).skip(1) =~= m.skip(j + 1));
                assert(m[j] == self@[j].model());
            }
            match self[i].serialize(out, pos) {
                Ok(()) => {},
                Err(e) => {
                    return Err(e);
                },
            }
            i += 1;
            proof {
                assert(m.take(i as int).drop_last() =~= m.take(j));
                assert(m.take(i as int).last() == m[j]);
                lemma_encode_items_split::<T>(m, i as int);
                assert(out@ =~= splice(d, p, u32_le_bytes(self@.len() as u32) + encode_items::<T>(m.take(i as int))));
            }
        }
        proof {
            assert(m.take(self@.len() as int) =~= m);
        }
        Ok(())
    }

    fn wire_size(&self) -> (r: usize) {
        let ghost m = self.model();
        let mut total: usize = 4;
        let mut i: usize = 0;
        proof {
            assert(m.take(0) =~= Seq::<T::Model>::empty());
        }
        while i < self.len()
            invariant
                m == self.model(),
                m.len() == self@.len(),
                i <= self@.len(),
                4 + encode_items::<T>(m).len() <= usize::MAX,
                total == 4 + encode_items::<T>(m.take(i as int)).len(),
            decreases self@.len() - i,
        {
            let ghost j = i as int;
            proof {
                lemma_encode_items_split::<T>(m, j + 1);
                assert(m.take(j + 1).drop_last() =~= m.take(j));
                assert(m[j] == self@[j].model());
            }
            let n = self[i].wire_size();
            total = total + n;
            i += 1;
        }
        proof {
            assert(m.take(self@.len() as int) =~= m);
        }
        total
    }

    proof fn lemma_decode_len(b: Seq<u8>) {
        if b.len() >= 4 {
            lemma_decode_items_len::<T>(b, 4, u32_le(b) as nat);
        }
    }

    proof fn lemma_round_trip(m: Seq<T::Model>, rest: Seq<u8>) {
        let head = u32_le_bytes(m.len() as u32);
        crate::bytes::lemma_u32_le(m.len() as u32, Seq::empty());
        lemma_decode_items_round_trip::<T>(m, head, rest, m.len());
        assert(m.take(m.len() as int) =~= m);
        assert(head + encode_items::<T>(m) + rest =~= Self::encode(m) + rest);
    }
}

/// Pairs in stored order; a key is found by its first pair.
#[derive(Debug, Clone, PartialEq, Default)]
pub struct VecMap<K, V>(pub Vec<(K, V)>);

/// The index of the first pair in `s`, from `from` on, whose key equals
/// `key` under `K`'s `==`.
pub open spec fn first_key_from<K: PartialEq, V>(s: Seq<(K, V)>, key: K, from: int) -> Option<int>
    decreases s.len() - from,
{
    if from < 0 || from >= s.len() {
        None
    } else if s[from].0.eq_spec(&key) {
        Some(from)
    } else {
        first_key_from(s, key, from + 1)
    }
}

/// The index of the first pair in `s` whose key equals `key`.
pub open spec fn first_key<K: PartialEq, V>(s: Seq<(K, V)>, key: K) -> Option<int> {
    first_key_from(s, key, 0)
}

/// The first index found from `from` on lies in `s`, from `from` on, and
/// holds a matching key; no earlier index from `from` on does.
pub proof fn lemma_first_key_from<K: PartialEq, V>(s: Seq<(K, V)>, key: K, from: int)
    requires
        0 <= from,
    ensures
        first_key_from(s, key, from) matches Some(j) ==> from <= j < s.len() && s[j].0.eq_spec(&key)
            && forall|k: int| from <= k < j ==> !(#[trigger] s[k].0.eq_spec(&key)),
        first_key_from(s, key, from) is None ==> forall|k: int| from <= k < s.len() ==> !(#[trigger] s[k].0.eq_spec(&key)),
    decreases s.len() - from,
{
    if from < s.len() && !s[from].0.eq_spec(&key) {
        lemma_first_key_from(s, key, from + 1);
    }
}

impl<K: PartialEq, V> VecMap<K, V> {
    /// The value of the first pair whose key equals `key`, if any.
    pub fn get(&self, key: &K) -> (r: Option<&V>)
        ensures
            K::obeys_eq_spec() ==> r == (match first_key(self.0@, *key) {
                Some(j) => Some(&self.0@[j].1),
                None => None::<&V>,
            }),
    {
        let mut i: usize = 0;
        while i < self.0.len()
            invariant
                i <= self.0@.len(),
                K::obeys_eq_spec() ==> first_key(self.0@, *key) == first_key_from(self.0@, *key, i as int),
            decreases self.0@.len() - i,
        {
            if self.0[i].0 == *key {
                return Some(&self.0[i].1);
            }
            i += 1;
        }
        None
    }

    /// Replaces the value of the first pair whose key equals `key`, keeping
    /// its stored key, or appends the pair when there is none.
    pub fn insert(&mut self, key: K, value: V)
        ensures
            K::obeys_eq_spec() ==> final(self).0@ == inserted(old(self).0@, key, value),
    {
        let mut i: usize = 0;
        while i < self.0.len()
            invariant
                i <= self.0@.len(),
                self.0@ == old(self).0@,
                K::obeys_eq_spec() ==> first_key(self.0@, key) == first_key_from(self.0@, key, i as int),
            decreases self.0@.len() - i,
        {
            if self.0[i].0 == key {
                self.0[i].1 = value;
                return;
            }
            i += 1;
        }
        self.0.push((key, value));
    }
}

/// The pairs after [`VecMap::insert`] of `key` and `value` into `s`.
pub open spec fn inserted<K: PartialEq, V>(s: Seq<(K, V)>, key: K, value: V) -> Seq<(K, V)> {
    match first_key(s, key) {
        Some(j) => s.update(j, (s[j].0, value)),
        None => s.push((key, value)),
    }
}

/// What a lookup gives back after a store: the stored value under the key
/// stored (a key that equals itself); under any key that the stored key
/// does not equal, the pair found before, with its value unless that pair
/// was the one whose value was replaced.
pub proof fn lemma_insert_then_get<K: PartialEq, V>(s: Seq<(K, V)>, key: K, value: V, other: K)
    requires
        key.eq_spec(&key),
        !key.eq_spec(&other),
    ensures
        first_key(inserted(s, key, value), key) matches Some(j) && inserted(s, key, value)[j].1 == value,
        first_key(inserted(s, key, value), other) == first_key(s, other),
        first_key(s, other) matches Some(j) ==> (first_key(s, key) != Some(j) ==> inserted(s, key, value)[j].1
            == s[j].1),
{
    lemma_first_key_from(s, key, 0);
    lemma_first_key_from(s, other, 0);
    match first_key(s, key) {
        Some(j) => {
            let t = s.update(j, (s[j].0, value));
            assert forall|k: int| 0 <= k < s.len() implies (#[trigger] t[k]).0 == s[k].0 by {}
            lemma_same_keys(s, t, key, 0);
            lemma_same_keys(s, t, other, 0);
        },
        None => {
            lemma_push_first_key(s, key, value, key);
            lemma_push_first_key(s, key, value, other);
        },
    }
}

/// Sequences with the same keys at the same places find a key at the same
/// place.
proof fn lemma_same_keys<K: PartialEq, V>(s: Seq<(K, V)>, t: Seq<(K, V)>, key: K, from: int)
    requires
        s.len() == t.len(),
        forall|k: int| 0 <= k < s.len() ==> (#[trigger] t[k]).0 == s[k].0,
    ensures
        first_key_from(s, key, from) == first_key_from(t, key, from),
    decreases s.len() - from,
{
    if 0 <= from < s.len() {
        assert(t[from].0 == s[from].0);
        lemma_same_keys(s, t, key, from + 1);
    }
}

/// Appending a pair keeps every key found before, and finds a key found
/// nowhere before at the new pair when its key matches.
proof fn lemma_push_first_key<K: PartialEq, V>(s: Seq<(K, V)>, key: K, value: V, probe: K)
    ensures
        first_key(s, probe) matches Some(j) ==> first_key(s.push((key, value)), probe) == Some(j),
        first_key(s, probe) is None ==> first_key(s.push((key, value)), probe) == (if key.eq_spec(
            &probe,
        ) {
            Some(s.len() as int)
        } else {
            None::<int>
        }),
{
    lemma_push_from(s, key, value, probe, 0);
}

proof fn lemma_push_from<K: PartialEq, V>(s: Seq<(K, V)>, key: K, value: V, probe: K, from: int)
    requires
        0 <= from <= s.len(),
    ensures
        first_key_from(s, probe, from) matches Some(j) ==> first_key_from(s.push((key, value)), probe, from)
            == Some(j),
        first_key_from(s, probe, from) is None ==> first_key_from(s.push((key, value)), probe, from) == (
        if key.eq_spec(&probe) {
            Some(s.len() as int)
        } else {
            None::<int>
        }),
    decreases s.len() - from,
{
    let t = s.push((key, value));
    if from < s.len() {
        assert(t[from] == s[from]);
        lemma_push_from(s, key, value, probe, from + 1);
    } else {
        assert(t[from] == (key, value));
        assert(first_key_from(t, probe, from + 1) is None);
    }
}


/// Same wire shape as `Vec<(K, V)>`: a `u32` count, then the pairs in
/// stored order.
impl<K: Wire, V: Wire> Wire for VecMap<K, V> {
    type Model = Seq<(K::Model, V::Model)>;

    open spec fn model(&self) -> Seq<(K::Model, V::Model)> {
        self.0.model()
    }

    open spec fn encode(m: Seq<(K::Model, V::Model)>) -> Seq<u8> {
        <Vec<(K, V)> as Wire>::encode(m)
    }

    open spec fn decode(b: Seq<u8>) -> (Result<Seq<(K::Model, V::Model)>, ParseWireError>, int) {
        <Vec<(K, V)> as Wire>::decode(b)
    }

    open spec fn encodable(m: Seq<(K::Model, V::Model)>) -> bool {
        <Vec<(K, V)> as Wire>::encodable(m)
    }

    fn parse(cur: &mut &[u8]) -> (r: Result<VecMap<K, V>, ParseWireError>) {
        match <Vec<(K, V)> as Wire>::parse(cur) {
            Ok(pairs) => Ok(VecMap(pairs)),
            Err(e) => Err(e),
        }
    }

    fn serialize(&self, out: &mut Vec<u8>, pos: &mut usize) -> (r: Result<(), UnexpectedEnd>) {
        self.0.serialize(out, pos)
    }

    fn wire_size(&self) -> (r: usize) {
        self.0.wire_size()
    }

    proof fn lemma_decode_len(b: Seq<u8>) {
        <Vec<(K, V)> as Wire>::lemma_decode_len(b);
    }

    proof fn lemma_round_trip(m: Seq<(K::Model, V::Model)>, rest: Seq<u8>) {
        <Vec<(K, V)> as Wire>::lemma_round_trip(m, rest);
    }
}

} // verus!
