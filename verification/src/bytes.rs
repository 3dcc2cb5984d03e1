//! Little-endian byte cursors: reading values off the front of a byte slice,
//! and writing them into a fixed-size buffer at a moving position.

use vstd::prelude::*;
use vstd::utf8::valid_utf8;
use vstd::string::StringSliceAdditionalSpecFns;

verus! {

/// The input ran out before a value could be read, or an output buffer is too
/// short for what has to be written into it.
#[derive(Debug, Clone, Copy, PartialEq, Eq, Structural)]
pub struct UnexpectedEnd;

// ── models ────────────────────────────────────────────────────────────────────

/// The `u16` whose little-endian encoding starts `b`.
pub open spec fn u16_le(b: Seq<u8>) -> u16 {
    ((b[0] as u16) | ((b[1] as u16) << 8u16)) as u16
}

/// The `u32` whose little-endian encoding starts `b`.
pub open spec fn u32_le(b: Seq<u8>) -> u32 {
    ((b[0] as u32) | ((b[1] as u32) << 8u32) | ((b[2] as u32) << 16u32) | ((b[3] as u32) << 24u32)) as u32
}

/// The `u64` whose little-endian encoding starts `b`.
pub open spec fn u64_le(b: Seq<u8>) -> u64 {
    ((u32_le(b) as u64) | ((u32_le(b.skip(4)) as u64) << 32u64)) as u64
}

/// The little-endian encoding of `v`.
pub open spec fn u16_le_bytes(v: u16) -> Seq<u8> {
    seq![v as u8, (v >> 8u16) as u8]
}

/// The little-endian encoding of `v`.
pub open spec fn u32_le_bytes(v: u32) -> Seq<u8> {
    seq![v as u8, (v >> 8u32) as u8, (v >> 16u32) as u8, (v >> 24u32) as u8]
}

/// The little-endian encoding of `v`.
pub open spec fn u64_le_bytes(v: u64) -> Seq<u8> {
    u32_le_bytes(v as u32) + u32_le_bytes((v >> 32u64) as u32)
}

/// `data` with `s` written over it starting at `pos`.
pub open spec fn splice(data: Seq<u8>, pos: int, s: Seq<u8>) -> Seq<u8> {
    data.take(pos) + s + data.skip(pos + s.len())
}

// ── encoding laws ─────────────────────────────────────────────────────────────

proof fn lemma_u32_parts(v: u32)
    ensures
        ((v as u8) as u32 | (((v >> 8u32) as u8) as u32) << 8u32 | (((v >> 16u32) as u8) as u32) << 16u32
            | (((v >> 24u32) as u8) as u32) << 24u32) == v,
{
    assert(((v as u8) as u32 | (((v >> 8u32) as u8) as u32) << 8u32 | (((v >> 16u32) as u8) as u32) << 16u32
        | (((v >> 24u32) as u8) as u32) << 24u32) == v) by (bit_vector);
}

proof fn lemma_u32_bytes(b0: u8, b1: u8, b2: u8, b3: u8)
    ensures
        ({
            let v = ((b0 as u32) | ((b1 as u32) << 8u32) | ((b2 as u32) << 16u32) | ((b3 as u32) << 24u32)) as u32;
            v as u8 == b0 && (v >> 8u32) as u8 == b1 && (v >> 16u32) as u8 == b2 && (v >> 24u32) as u8 == b3
        }),
{
    assert({
        let v = ((b0 as u32) | ((b1 as u32) << 8u32) | ((b2 as u32) << 16u32) | ((b3 as u32) << 24u32)) as u32;
        v as u8 == b0 && (v >> 8u32) as u8 == b1 && (v >> 16u32) as u8 == b2 && (v >> 24u32) as u8 == b3
    }) by (bit_vector);
}

/// Decoding the little-endian encoding of a `u16` gives the value back, and
/// encoding a decoded `u16` gives its two bytes back.
pub proof fn lemma_u16_le(v: u16, b: Seq<u8>)
    ensures
        u16_le(u16_le_bytes(v)) == v,
        b.len() == 2 ==> u16_le_bytes(u16_le(b)) == b,
{
    let e = u16_le_bytes(v);
    let (e0, e1) = (e[0], e[1]);
    assert(e0 == v as u8 && e1 == (v >> 8u16) as u8);
    assert(((v as u8) as u16 | (((v >> 8u16) as u8) as u16) << 8u16) == v) by (bit_vector);
    if b.len() == 2 {
        let (b0, b1) = (b[0], b[1]);
        assert({
            let w = ((b0 as u16) | ((b1 as u16) << 8u16)) as u16;
            w as u8 == b0 && (w >> 8u16) as u8 == b1
        }) by (bit_vector);
        assert(u16_le_bytes(u16_le(b)) =~= b);
    }
}

/// Decoding the little-endian encoding of a `u32` gives the value back, and
/// encoding a decoded `u32` gives its four bytes back.
pub proof fn lemma_u32_le(v: u32, b: Seq<u8>)
    ensures
        u32_le(u32_le_bytes(v)) == v,
        b.len() == 4 ==> u32_le_bytes(u32_le(b)) == b,
{
    lemma_u32_parts(v);
    if b.len() == 4 {
        lemma_u32_bytes(b[0], b[1], b[2], b[3]);
        assert(u32_le_bytes(u32_le(b)) =~= b);
    }
}

/// Decoding the little-endian encoding of a `u64` gives the value back, and
/// encoding a decoded `u64` gives its eight bytes back.
pub proof fn lemma_u64_le(v: u64, b: Seq<u8>)
    ensures
        u64_le(u64_le_bytes(v)) == v,
        b.len() == 8 ==> u64_le_bytes(u64_le(b)) == b,
{
    let lo = v as u32;
    let hi = (v >> 32u64) as u32;
    lemma_u32_le(lo, Seq::empty());
    lemma_u32_le(hi, Seq::empty());
    let e = u64_le_bytes(v);
    assert(e.skip(4) =~= u32_le_bytes(hi));
    assert(e.take(4) =~= u32_le_bytes(lo));
    assert(u32_le(e) == u32_le(u32_le_bytes(lo)));
    assert(((lo as u64) | ((hi as u64) << 32u64)) == v) by (bit_vector)
        requires
            lo == v as u32,
            hi == (v >> 32u64) as u32,
    ;
    if b.len() == 8 {
        let l = u32_le(b);
        let h = u32_le(b.skip(4));
        lemma_u32_le(0, b.take(4));
        lemma_u32_le(0, b.skip(4));
        assert(u32_le(b.take(4)) == l);
        let w = ((l as u64) | ((h as u64) << 32u64)) as u64;
        assert(w as u32 == l && (w >> 32u64) as u32 == h) by (bit_vector)
            requires
                w == ((l as u64) | ((h as u64) << 32u64)) as u64,
        ;
        assert(u64_le_bytes(u64_le(b)) =~= b.take(4) + b.skip(4));
        assert(b.take(4) + b.skip(4) =~= b);
    }
}

// ── reading ───────────────────────────────────────────────────────────────────

/// Takes `n` bytes off the front of `cur`.
pub fn take_bytes<'a>(cur: &mut &'a [u8], n: usize) -> (r: Result<&'a [u8], UnexpectedEnd>)
    ensures
        n <= old(cur)@.len() ==> (r matches Ok(b) && b@ == old(cur)@.take(n as int) && final(cur)@
            == old(cur)@.skip(n as int)),
        n > old(cur)@.len() ==> r is Err && final(cur)@ == old(cur)@,
{
    if n > cur.len() {
        return Err(UnexpectedEnd);
    }
    let c: &'a [u8] = *cur;
    let (head, tail) = c.split_at(n);
    *cur = tail;
    Ok(head)
}

/// Takes one byte off the front of `cur`.
pub fn take_u8(cur: &mut &[u8]) -> (r: Result<u8, UnexpectedEnd>)
    ensures
        old(cur)@.len() >= 1 ==> r == Ok::<u8, UnexpectedEnd>(old(cur)@[0]) && final(cur)@ == old(
            cur,
        )@.skip(1),
        old(cur)@.len() < 1 ==> r is Err && final(cur)@ == old(cur)@,
{
    if cur.len() < 1 {
        return Err(UnexpectedEnd);
    }
    let b = cur[0];
    *cur = &cur[1..cur.len()];
    Ok(b)
}

/// Takes a little-endian `u16` off the front of `cur`.
pub fn take_u16(cur: &mut &[u8]) -> (r: Result<u16, UnexpectedEnd>)
    ensures
        old(cur)@.len() >= 2 ==> r == Ok::<u16, UnexpectedEnd>(u16_le(old(cur)@)) && final(cur)@
            == old(cur)@.skip(2),
        old(cur)@.len() < 2 ==> r is Err && final(cur)@ == old(cur)@,
{
    if cur.len() < 2 {
        return Err(UnexpectedEnd);
    }
    let v = (cur[0] as u16) | ((cur[1] as u16) << 8u16);
    *cur = &cur[2..cur.len()];
    Ok(v)
}

/// Takes a little-endian `u32` off the front of `cur`.
pub fn take_u32(cur: &mut &[u8]) -> (r: Result<u32, UnexpectedEnd>)
    ensures
        old(cur)@.len() >= 4 ==> r == Ok::<u32, UnexpectedEnd>(u32_le(old(cur)@)) && final(cur)@
            == old(cur)@.skip(4),
        old(cur)@.len() < 4 ==> r is Err && final(cur)@ == old(cur)@,
{
    if cur.len() < 4 {
        return Err(UnexpectedEnd);
    }
    let v = (cur[0] as u32) | ((cur[1] as u32) << 8u32) | ((cur[2] as u32) << 16u32) | ((
    cur[3] as u32) << 24u32);
    *cur = &cur[4..cur.len()];
    Ok(v)
}

/// Takes a little-endian `u64` off the front of `cur`.
pub fn take_u64(cur: &mut &[u8]) -> (r: Result<u64, UnexpectedEnd>)
    ensures
        old(cur)@.len() >= 8 ==> r == Ok::<u64, UnexpectedEnd>(u64_le(old(cur)@)) && final(cur)@
            == old(cur)@.skip(8),
        old(cur)@.len() < 8 ==> r is Err && final(cur)@ == old(cur)@,
{
    if cur.len() < 8 {
        return Err(UnexpectedEnd);
    }
    let c: &[u8] = *cur;
    let lo = (c[0] as u32) | ((c[1] as u32) << 8u32) | ((c[2] as u32) << 16u32) | ((c[3] as u32)
        << 24u32);
    let hi = (c[4] as u32) | ((c[5] as u32) << 8u32) | ((c[6] as u32) << 16u32) | ((c[7] as u32)
        << 24u32);
    assert(c@.skip(4)[0] == c@[4] && c@.skip(4)[1] == c@[5] && c@.skip(4)[2] == c@[6]
        && c@.skip(4)[3] == c@[7]);
    let v = (lo as u64) | ((hi as u64) << 32u64);
    *cur = &c[8..c.len()];
    Ok(v)
}

// ── writing ───────────────────────────────────────────────────────────────────

/// Writes `src` into `out` at `*pos`, advancing `*pos`. Fails without writing
/// anything when fewer than `src.len()` bytes remain after `*pos`.
pub fn put_bytes(out: &mut Vec<u8>, pos: &mut usize, src: &[u8]) -> (r: Result<(), UnexpectedEnd>)
    requires
        *old(pos) <= old(out)@.len(),
    ensures
        final(out)@.len() == old(out)@.len(),
        *final(pos) <= final(out)@.len(),
        old(pos) + src@.len() <= old(out)@.len() ==> r is Ok && final(out)@ == splice(
            old(out)@,
            *old(pos) as int,
            src@,
        ) && *final(pos) == old(pos) + src@.len(),
        old(pos) + src@.len() > old(out)@.len() ==> r is Err && final(out)@ == old(out)@
            && *final(pos) == *old(pos),
{
    if src.len() > out.len() - *pos {
        return Err(UnexpectedEnd);
    }
    let start = *pos;
    let mut i: usize = 0;
    while i < src.len()
        invariant
            start + src@.len() <= out@.len(),
            start + src@.len() <= usize::MAX,
            out@.len() == old(out)@.len(),
            i <= src@.len(),
            *old(pos) == start,
            out@ == splice(old(out)@, start as int, src@.take(i as int)),
        decreases src@.len() - i,
    {
        out.set(start + i, src[i]);
        i = i + 1;
        assert(out@ =~= splice(old(out)@, start as int, src@.take(i as int)));
    }
    assert(src@.take(i as int) =~= src@);
    *pos = start + src.len();
    Ok(())
}

/// Writes one byte into `out` at `*pos`, advancing `*pos`.
pub fn put_u8(out: &mut Vec<u8>, pos: &mut usize, v: u8) -> (r: Result<(), UnexpectedEnd>)
    requires
        *old(pos) <= old(out)@.len(),
    ensures
        final(out)@.len() == old(out)@.len(),
        *final(pos) <= final(out)@.len(),
        old(pos) + 1 <= old(out)@.len() ==> r is Ok && final(out)@ == splice(
            old(out)@,
            *old(pos) as int,
            seq![v],
        ) && *final(pos) == old(pos) + 1,
        old(pos) + 1 > old(out)@.len() ==> r is Err && final(out)@ == old(out)@ && *final(pos)
            == *old(pos),
{
    let a = [v];
    proof {
        assert(a@ =~= seq![v]);
    }
    put_bytes(out, pos, a.as_slice())
}

/// Writes a little-endian `u16` into `out` at `*pos`, advancing `*pos`.
pub fn put_u16(out: &mut Vec<u8>, pos: &mut usize, v: u16) -> (r: Result<(), UnexpectedEnd>)
    requires
        *old(pos) <= old(out)@.len(),
    ensures
        final(out)@.len() == old(out)@.len(),
        *final(pos) <= final(out)@.len(),
        old(pos) + 2 <= old(out)@.len() ==> r is Ok && final(out)@ == splice(
            old(out)@,
            *old(pos) as int,
            u16_le_bytes(v),
        ) && *final(pos) == old(pos) + 2,
        old(pos) + 2 > old(out)@.len() ==> r is Err && final(out)@ == old(out)@ && *final(pos)
            == *old(pos),
{
    let a = [v as u8, (v >> 8u16) as u8];
    proof {
        assert(a@ =~= u16_le_bytes(v));
    }
    put_bytes(out, pos, a.as_slice())
}

/// Writes a little-endian `u32` into `out` at `*pos`, advancing `*pos`.
pub fn put_u32(out: &mut Vec<u8>, pos: &mut usize, v: u32) -> (r: Result<(), UnexpectedEnd>)
    requires
        *old(pos) <= old(out)@.len(),
    ensures
        final(out)@.len() == old(out)@.len(),
        *final(pos) <= final(out)@.len(),
        old(pos) + 4 <= old(out)@.len() ==> r is Ok && final(out)@ == splice(
            old(out)@,
            *old(pos) as int,
            u32_le_bytes(v),
        ) && *final(pos) == old(pos) + 4,
        old(pos) + 4 > old(out)@.len() ==> r is Err && final(out)@ == old(out)@ && *final(pos)
            == *old(pos),
{
    let a = [v as u8, (v >> 8u32) as u8, (v >> 16u32) as u8, (v >> 24u32) as u8];
    proof {
        assert(a@ =~= u32_le_bytes(v));
    }
    put_bytes(out, pos, a.as_slice())
}

/// Writes a little-endian `u64` into `out` at `*pos`, advancing `*pos`.
pub fn put_u64(out: &mut Vec<u8>, pos: &mut usize, v: u64) -> (r: Result<(), UnexpectedEnd>)
    requires
        *old(pos) <= old(out)@.len(),
    ensures
        final(out)@.len() == old(out)@.len(),
        *final(pos) <= final(out)@.len(),
        old(pos) + 8 <= old(out)@.len() ==> r is Ok && final(out)@ == splice(
            old(out)@,
            *old(pos) as int,
            u64_le_bytes(v),
        ) && *final(pos) == old(pos) + 8,
        old(pos) + 8 > old(out)@.len() ==> r is Err && final(out)@ == old(out)@ && *final(pos)
            == *old(pos),
{
    if 8 > out.len() - *pos {
        return Err(UnexpectedEnd);
    }
    let ghost d = out@;
    let ghost p = *pos as int;
    let _ = put_u32(out, pos, v as u32);
    let _ = put_u32(out, pos, (v >> 32u64) as u32);
    assert(out@ =~= splice(d, p, u64_le_bytes(v)));
    Ok(())
}

} // verus!

verus! {

/// Appends `s` to `v`.
pub fn append_bytes(v: &mut Vec<u8>, s: &[u8])
    ensures
        final(v)@ == old(v)@ + s@,
{
    v.extend_from_slice(s);
    assert(v@ =~= old(v)@ + s@);
}

} // verus!

verus! {

/// The little-endian `u32`s at the front of `b`, `n` of them.
pub open spec fn u32s_le(b: Seq<u8>, n: nat) -> Seq<u32> {
    Seq::new(n, |i: int| u32_le(b.skip(4 * i)))
}

/// The little-endian encoding of each of `s`, one after the other.
pub open spec fn u32s_le_bytes(s: Seq<u32>) -> Seq<u8>
    decreases s.len(),
{
    if s.len() == 0 {
        Seq::empty()
    } else {
        u32s_le_bytes(s.drop_last()) + u32_le_bytes(s.last())
    }
}

pub proof fn lemma_u32s_le_bytes_len(s: Seq<u32>)
    ensures
        u32s_le_bytes(s).len() == 4 * s.len(),
    decreases s.len(),
{
    if s.len() > 0 {
        lemma_u32s_le_bytes_len(s.drop_last());
    }
}

/// Decoding `n` little-endian `u32`s from the encoding of `s` (followed by
/// anything) gives back `s`, and encoding decoded `u32`s gives back their
/// bytes.
pub proof fn lemma_u32s_le(s: Seq<u32>, rest: Seq<u8>, b: Seq<u8>, n: nat)
    ensures
        u32s_le(u32s_le_bytes(s) + rest, s.len()) == s,
        b.len() >= 4 * n ==> u32s_le_bytes(u32s_le(b, n)) == b.take((4 * n) as int),
    decreases s.len() + n,
{
    lemma_u32s_le_bytes_len(s);
    if s.len() > 0 {
        let init = s.drop_last();
        lemma_u32s_le(init, u32_le_bytes(s.last()) + rest, b, 0);
        lemma_u32s_le_bytes_len(init);
        let all = u32s_le_bytes(s) + rest;
        assert(all =~= u32s_le_bytes(init) + (u32_le_bytes(s.last()) + rest));
        lemma_u32_le(s.last(), Seq::empty());
        assert forall|i: int| 0 <= i < s.len() implies #[trigger] u32s_le(all, s.len())[i] == s[i] by {
            if i < s.len() - 1 {
                assert(u32s_le(u32s_le_bytes(init) + (u32_le_bytes(s.last()) + rest), init.len())[i]
                    == init[i]);
            } else {
                assert(all.skip(4 * i).take(4) =~= u32_le_bytes(s.last()));
                assert(u32_le(all.skip(4 * i)) == u32_le(all.skip(4 * i).take(4)));
            }
        }
        assert(u32s_le(all, s.len()) =~= s);
    }
    if n > 0 && b.len() >= 4 * n {
        lemma_u32s_le(Seq::empty(), Seq::empty(), b, (n - 1) as nat);
        let d = u32s_le(b, n);
        assert(d.drop_last() =~= u32s_le(b, (n - 1) as nat));
        lemma_u32_le(0, b.skip(4 * (n - 1)).take(4));
        assert(u32_le(b.skip(4 * (n - 1))) == u32_le(b.skip(4 * (n - 1)).take(4)));
        assert(b.take((4 * n) as int) =~= b.take(4 * (n - 1)) + b.skip(4 * (n - 1)).take(4));
    }
}

/// Takes `n` little-endian `u32`s off the front of `cur` when there are
/// `4 * n` bytes; takes nothing otherwise.
pub fn take_u32s(cur: &mut &[u8], n: usize) -> (r: Result<Vec<u32>, UnexpectedEnd>)
    requires
        4 * n <= usize::MAX,
    ensures
        old(cur)@.len() >= 4 * n ==> (r matches Ok(v) && v@ == u32s_le(old(cur)@, n as nat)
            && final(cur)@ == old(cur)@.skip(4 * n)),
        old(cur)@.len() < 4 * n ==> r is Err && final(cur)@ == old(cur)@,
{
    if cur.len() < 4 * n {
        return Err(UnexpectedEnd);
    }
    let ghost b = cur@;
    let mut v: Vec<u32> = Vec::new();
    let mut i: usize = 0;
    while i < n
        invariant
            i <= n,
            4 * n <= usize::MAX,
            b.len() >= 4 * n,
            cur@ == b.skip(4 * i),
            v@ == u32s_le(b, i as nat),
        decreases n - i,
    {
        let x = match take_u32(cur) {
            Ok(x) => x,
            Err(_) => return Err(UnexpectedEnd),
        };
        v.push(x);
        i = i + 1;
        assert(cur@ =~= b.skip(4 * i));
        assert(v@ =~= u32s_le(b, i as nat));
    }
    Ok(v)
}

/// Writes each of `s` as a little-endian `u32` into `out` at `*pos`,
/// advancing `*pos`; writes nothing when they do not all fit.
pub fn put_u32s(out: &mut Vec<u8>, pos: &mut usize, s: &[u32]) -> (r: Result<(), UnexpectedEnd>)
    requires
        *old(pos) <= old(out)@.len(),
        4 * s@.len() <= usize::MAX,
    ensures
        final(out)@.len() == old(out)@.len(),
        *final(pos) <= final(out)@.len(),
        old(pos) + 4 * s@.len() <= old(out)@.len() ==> r is Ok && final(out)@ == splice(
            old(out)@,
            *old(pos) as int,
            u32s_le_bytes(s@),
        ) && *final(pos) == old(pos) + 4 * s@.len(),
        old(pos) + 4 * s@.len() > old(out)@.len() ==> r is Err && final(out)@ == old(out)@
            && *final(pos) == *old(pos),
{
    if out.len() - *pos < 4 * s.len() {
        return Err(UnexpectedEnd);
    }
    let ghost o = out@;
    let ghost p0 = *pos as int;
    let mut i: usize = 0;
    proof {
        assert(s@.take(0) =~= Seq::<u32>::empty());
        assert(splice(o, p0, Seq::empty()) =~= o);
    }
    while i < s.len()
        invariant
            i <= s@.len(),
            4 * s@.len() <= usize::MAX,
            p0 + 4 * s@.len() <= o.len(),
            out@.len() == o.len(),
            *pos == p0 + 4 * i,
            out@ == splice(o, p0, u32s_le_bytes(s@.take(i as int))),
        decreases s@.len() - i,
    {
        proof {
            lemma_u32s_le_bytes_len(s@.take(i as int));
        }
        let _ = put_u32(out, pos, s[i]);
        proof {
            assert(s@.take(i + 1).drop_last() =~= s@.take(i as int));
            lemma_u32s_le_bytes_len(s@.take(i + 1));
        }
        i = i + 1;
        assert(out@ =~= splice(o, p0, u32s_le_bytes(s@.take(i as int))));
    }
    assert(s@.take(i as int) =~= s@);
    Ok(())
}

} // verus!

verus! {

/// Whether `a` and `b` hold the same bytes.
pub fn bytes_eq(a: &[u8], b: &[u8]) -> (r: bool)
    ensures
        r == (a@ == b@),
{
    if a.len() != b.len() {
        return false;
    }
    let mut i: usize = 0;
    while i < a.len()
        invariant
            i <= a.len(),
            a.len() == b.len(),
            forall|k: int| 0 <= k < i ==> a@[k] == b@[k],
        decreases a.len() - i,
    {
        if a[i] != b[i] {
            return false;
        }
        i += 1;
    }
    assert(a@ =~= b@);
    true
}

/// Whether `a` and `b` are the same string.
pub fn str_eq(a: &str, b: &str) -> (r: bool)
    ensures
        r == (a@ == b@),
        r == (a.spec_bytes() == b.spec_bytes()),
{
    let r = bytes_eq(a.as_bytes(), b.as_bytes());
    proof {
        vstd::utf8::encode_utf8_decode_utf8(a@);
        vstd::utf8::encode_utf8_decode_utf8(b@);
    }
    r
}

} // verus!

verus! {

/// Appends `n` zero bytes to `v`.
pub fn append_zeros(v: &mut Vec<u8>, n: usize)
    ensures
        final(v)@ == old(v)@ + Seq::new(n as nat, |_i: int| 0u8),
{
    let mut i: usize = 0;
    while i < n
        invariant
            i <= n,
            v@ == old(v)@ + Seq::new(i as nat, |_i: int| 0u8),
        decreases n - i,
    {
        v.push(0);
        i += 1;
        assert(v@ =~= old(v)@ + Seq::new(i as nat, |_i: int| 0u8));
    }
}

} // verus!

verus! {

/// The `std` UTF-8 check: `Some` exactly when `b` is well-formed UTF-8, with
/// the string whose bytes are `b`.
#[verifier::external_body]
pub(crate) fn str_from_utf8(b: &[u8]) -> (r: Option<&str>)
    ensures
        r is Some <==> valid_utf8(b@),
        r matches Some(s) ==> s.spec_bytes() == b@,
{
    core::str::from_utf8(b).ok()
}

} // verus!
