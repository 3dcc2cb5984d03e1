//! Decimal integers as Rust's `i64` `FromStr` reads them: an optional `+` or
//! `-`, then one or more ASCII digits, the value within the range of `i64`.

use vstd::prelude::*;
use vstd::string::StringSliceAdditionalSpecFns;

verus! {

/// The value of the ASCII digits `d`.
pub open spec fn decimal_value(d: Seq<u8>) -> int
    decreases d.len(),
{
    if d.len() == 0 {
        0
    } else {
        decimal_value(d.drop_last()) * 10 + (d.last() - 48)
    }
}

/// Whether `d` is made of ASCII digits only.
pub open spec fn all_digits(d: Seq<u8>) -> bool {
    forall|i: int| 0 <= i < d.len() ==> 48 <= #[trigger] d[i] <= 57
}

/// The `i64` the text `s` denotes, or `None` where Rust's parse fails (no
/// digits, a byte that is not a digit, or a value out of range).
pub open spec fn i64_of(s: Seq<u8>) -> Option<int> {
    let neg = s.len() > 0 && s[0] == 45;
    let signed = s.len() > 0 && (s[0] == 45 || s[0] == 43);
    let d = if signed {
        s.skip(1)
    } else {
        s
    };
    if d.len() == 0 || !all_digits(d) {
        None
    } else {
        let v = if neg {
            -decimal_value(d)
        } else {
            decimal_value(d)
        };
        if i64::MIN <= v <= i64::MAX {
            Some(v)
        } else {
            None
        }
    }
}

proof fn lemma_decimal_grows(d: Seq<u8>, k: int)
    requires
        0 <= k <= d.len(),
        all_digits(d),
    ensures
        decimal_value(d.take(k)) <= decimal_value(d),
        decimal_value(d.take(k)) >= 0,
    decreases d.len(),
{
    if k < d.len() {
        assert(d.drop_last().take(k) =~= d.take(k));
        assert(all_digits(d.drop_last()));
        lemma_decimal_grows(d.drop_last(), k);
    } else {
        assert(d.take(k) =~= d);
        lemma_decimal_nonneg(d);
    }
}

proof fn lemma_decimal_nonneg(d: Seq<u8>)
    requires
        all_digits(d),
    ensures
        decimal_value(d) >= 0,
    decreases d.len(),
{
    if d.len() > 0 {
        assert(all_digits(d.drop_last()));
        lemma_decimal_nonneg(d.drop_last());
    }
}

/// Parses `s` as an `i64` (see [`i64_of`]).
pub fn parse_i64(s: &str) -> (r: Option<i64>)
    ensures
        match i64_of(s.spec_bytes()) {
            Some(v) => r == Some(v as i64),
            None => r is None,
        },
{
    let b = s.as_bytes();
    let n = b.len();
    let neg = n > 0 && b[0] == 45;
    let signed = n > 0 && (b[0] == 45 || b[0] == 43);
    let start: usize = if signed {
        1
    } else {
        0
    };
    let ghost d = if signed {
        b@.skip(1)
    } else {
        b@
    };
    assert(d =~= b@.skip(start as int));
    if start == n {
        return None;
    }
    let limit: u64 = if neg {
        0x8000_0000_0000_0000
    } else {
        0x7fff_ffff_ffff_ffff
    };
    let mut acc: u64 = 0;
    let mut i = start;
    while i < n
        invariant
            start <= i <= n,
            n == b@.len(),
            b@ == s.spec_bytes(),
            neg == (n > 0 && b@[0] == 45),
            signed == (n > 0 && (b@[0] == 45 || b@[0] == 43)),
            start == (if signed { 1usize } else { 0usize }),
            limit == (if neg { 0x8000_0000_0000_0000u64 } else { 0x7fff_ffff_ffff_ffffu64 }),
            d == (if signed { b@.skip(1) } else { b@ }),
            d =~= b@.skip(start as int),
            acc <= limit,
            acc == decimal_value(d.take(i - start)),
            all_digits(d.take(i - start)),
        decreases n - i,
    {
        let c = b[i];
        if c < 48 || c > 57 {
            assert(!all_digits(d)) by {
                assert(d[i - start] == c);
            }
            return None;
        }
        let digit = (c - 48) as u64;
        assert(d.take(i + 1 - start).drop_last() =~= d.take(i - start));
        if acc > (limit - digit) / 10 {
            proof {
                assert(all_digits(d.take(i + 1 - start)));
                assert(decimal_value(d.take(i + 1 - start)) > limit) by (nonlinear_arith)
                    requires
                        decimal_value(d.take(i + 1 - start)) == acc * 10 + digit,
                        acc > (limit - digit) / 10,
                        digit <= 9,
                        limit >= 9,
                ;
                if all_digits(d) {
                    lemma_decimal_grows(d, i + 1 - start);
                }
            }
            return None;
        }
        acc = acc * 10 + digit;
        i = i + 1;
        assert(all_digits(d.take(i - start)));
    }
    assert(d.take(n - start) =~= d);
    if neg {
        if acc == 0x8000_0000_0000_0000 {
            Some(i64::MIN)
        } else {
            Some(-(acc as i64))
        }
    } else {
        Some(acc as i64)
    }
}

/// The ASCII digit character for `d`.
pub open spec fn digit_char(d: nat) -> char {
    ((d + 48) as u8) as char
}

/// The decimal text of `n`: its digits, most significant first, with no
/// leading zero (`"0"` for zero).
pub open spec fn dec_chars(n: nat) -> Seq<char>
    decreases n,
{
    if n < 10 {
        seq![digit_char(n)]
    } else {
        dec_chars(n / 10).push(digit_char(n % 10))
    }
}

/// The decimal text of `i`, with a leading `-` when negative.
pub open spec fn int_chars(i: int) -> Seq<char> {
    if i < 0 {
        seq!['-'] + dec_chars((-i) as nat)
    } else {
        dec_chars(i as nat)
    }
}

fn digit_str(d: u64) -> (r: &'static str)
    requires
        d < 10,
    ensures
        r@ == seq![digit_char(d as nat)],
{
    if d == 0 {
        proof { reveal_strlit("0"); }
        "0"
    } else if d == 1 {
        proof { reveal_strlit("1"); }
        "1"
    } else if d == 2 {
        proof { reveal_strlit("2"); }
        "2"
    } else if d == 3 {
        proof { reveal_strlit("3"); }
        "3"
    } else if d == 4 {
        proof { reveal_strlit("4"); }
        "4"
    } else if d == 5 {
        proof { reveal_strlit("5"); }
        "5"
    } else if d == 6 {
        proof { reveal_strlit("6"); }
        "6"
    } else if d == 7 {
        proof { reveal_strlit("7"); }
        "7"
    } else if d == 8 {
        proof { reveal_strlit("8"); }
        "8"
    } else {
        proof { reveal_strlit("9"); }
        "9"
    }
}

/// The decimal text of `n`.
pub fn format_u64(n: u64) -> (r: String)
    ensures
        r@ == dec_chars(n as nat),
    decreases n,
{
    if n < 10 {
        digit_str(n).to_owned()
    } else {
        let mut s = format_u64(n / 10);
        s.append(digit_str(n % 10));
        s
    }
}

/// The decimal text of `n`, with a leading `-` when negative.
pub fn format_i64(n: i64) -> (r: String)
    ensures
        r@ == int_chars(n as int),
{
    if n < 0 {
        let m: u64 = if n == i64::MIN {
            0x8000_0000_0000_0000u64
        } else {
            (-n) as u64
        };
        let mut s = "-".to_owned();
        let d = format_u64(m);
        s.append(d.as_str());
        proof { reveal_strlit("-"); }
        s
    } else {
        format_u64(n as u64)
    }
}

/// The `u64` the text `s` denotes, or `None` where Rust's parse fails: an
/// optional `+` (no `-`), one or more ASCII digits, the value at most
/// `u64::MAX`.
pub open spec fn u64_of(s: Seq<u8>) -> Option<int> {
    let d = if s.len() > 0 && s[0] == 43 {
        s.skip(1)
    } else {
        s
    };
    if d.len() == 0 || !all_digits(d) || decimal_value(d) > u64::MAX {
        None
    } else {
        Some(decimal_value(d))
    }
}

/// The `i32` the text `s` denotes, or `None` where Rust's parse fails.
pub open spec fn i32_of(s: Seq<u8>) -> Option<int> {
    match i64_of(s) {
        Some(v) => if i32::MIN <= v <= i32::MAX {
            Some(v)
        } else {
            None
        },
        None => None,
    }
}

/// The `u32` the text `s` denotes, or `None` where Rust's parse fails.
pub open spec fn u32_of(s: Seq<u8>) -> Option<int> {
    match u64_of(s) {
        Some(v) => if v <= u32::MAX {
            Some(v)
        } else {
            None
        },
        None => None,
    }
}

/// Parses `s` as a `u64` (see [`u64_of`]).
pub fn parse_u64(s: &str) -> (r: Option<u64>)
    ensures
        match u64_of(s.spec_bytes()) {
            Some(v) => r matches Some(x) && x == v,
            None => r is None,
        },
{
    let b = s.as_bytes();
    let n = b.len();
    let start: usize = if n > 0 && b[0] == 43 {
        1
    } else {
        0
    };
    let ghost d = if n > 0 && b@[0] == 43 {
        b@.skip(1)
    } else {
        b@
    };
    assert(d =~= b@.skip(start as int));
    if start == n {
        return None;
    }
    let mut acc: u64 = 0;
    let mut i = start;
    while i < n
        invariant
            start <= i <= n,
            n == b@.len(),
            b@ == s.spec_bytes(),
            start == (if n > 0 && b@[0] == 43 { 1usize } else { 0usize }),
            d == (if n > 0 && b@[0] == 43 { b@.skip(1) } else { b@ }),
            d =~= b@.skip(start as int),
            acc == decimal_value(d.take(i - start)),
            all_digits(d.take(i - start)),
        decreases n - i,
    {
        let c = b[i];
        if c < 48 || c > 57 {
            assert(!all_digits(d)) by {
                assert(d[i - start] == c);
            }
            return None;
        }
        let digit = (c - 48) as u64;
        assert(d.take(i + 1 - start).drop_last() =~= d.take(i - start));
        if acc > (u64::MAX - digit) / 10 {
            proof {
                assert(all_digits(d.take(i + 1 - start)));
                assert(decimal_value(d.take(i + 1 - start)) > u64::MAX) by (nonlinear_arith)
                    requires
                        decimal_value(d.take(i + 1 - start)) == acc * 10 + digit,
                        acc > (u64::MAX - digit) / 10,
                        digit <= 9,
                ;
                if all_digits(d) {
                    lemma_decimal_grows(d, i + 1 - start);
                }
            }
            return None;
        }
        acc = acc * 10 + digit;
        i = i + 1;
        assert(all_digits(d.take(i - start)));
    }
    assert(d.take(n - start) =~= d);
    Some(acc)
}

/// Parses `s` as an `i32` (see [`i32_of`]).
pub fn parse_i32(s: &str) -> (r: Option<i32>)
    ensures
        match i32_of(s.spec_bytes()) {
            Some(v) => r == Some(v as i32),
            None => r is None,
        },
{
    match parse_i64(s) {
        Some(v) => if -0x8000_0000 <= v && v <= 0x7fff_ffff {
            Some(v as i32)
        } else {
            None
        },
        None => None,
    }
}

/// Parses `s` as a `u32` (see [`u32_of`]).
pub fn parse_u32(s: &str) -> (r: Option<u32>)
    ensures
        match u32_of(s.spec_bytes()) {
            Some(v) => r matches Some(x) && x == v,
            None => r is None,
        },
{
    match parse_u64(s) {
        Some(v) => if v <= 0xffff_ffff {
            Some(v as u32)
        } else {
            None
        },
        None => None,
    }
}

} // verus!
