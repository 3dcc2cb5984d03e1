//! Matching of member names between the text and binary def forms.

use vstd::prelude::*;

verus! {

/// What `char::to_lowercase` yields for `c`, in order.
pub uninterp spec fn lowercase_of(c: char) -> Seq<char>;

/// The lowercase mapping of `c`, by `char::to_lowercase`. Claimed: the
/// result is a function of `c` (named, not spelled out); an ASCII capital
/// maps to its small letter and any other ASCII character to itself, as the
/// Unicode tables that std follows give them.
#[verifier::external_body]
fn char_lowercase(c: char) -> (r: String)
    ensures
        r@ == lowercase_of(c),
        'A' <= c <= 'Z' ==> r@ == seq![((c as u32) + 32) as char],
        (c as u32) < 128 && !('A' <= c <= 'Z') ==> r@ == seq![c],
{
    c.to_lowercase().collect::<String>()
}

/// `s` without its underscores and with each other character replaced by
/// its lowercase mapping.
pub open spec fn normalized(s: Seq<char>) -> Seq<char>
    decreases s.len(),
{
    if s.len() == 0 {
        Seq::empty()
    } else if s.last() == '_' {
        normalized(s.drop_last())
    } else {
        normalized(s.drop_last()) + lowercase_of(s.last())
    }
}

/// The lowercase letter of an ASCII capital; any other character as it is.
pub open spec fn ascii_lower(c: char) -> char {
    if 'A' <= c <= 'Z' {
        ((c as u32) + 32) as char
    } else {
        c
    }
}

/// For ASCII text: `s` without its underscores and with its capitals made
/// small.
pub open spec fn ascii_normalized(s: Seq<char>) -> Seq<char>
    decreases s.len(),
{
    if s.len() == 0 {
        Seq::empty()
    } else if s.last() == '_' {
        ascii_normalized(s.drop_last())
    } else {
        ascii_normalized(s.drop_last()).push(ascii_lower(s.last()))
    }
}

/// A normalized ASCII name holds no underscore and no capital, and
/// normalizing it again changes nothing.
pub proof fn lemma_ascii_normalized(s: Seq<char>)
    ensures
        !ascii_normalized(s).contains('_'),
        forall|i: int| 0 <= i < ascii_normalized(s).len() ==> !('A' <= #[trigger] ascii_normalized(s)[i] <= 'Z'),
        ascii_normalized(ascii_normalized(s)) == ascii_normalized(s),
    decreases s.len(),
{
    if s.len() > 0 {
        let d = s.drop_last();
        lemma_ascii_normalized(d);
        if s.last() != '_' {
            let n = ascii_normalized(d);
            let x = ascii_lower(s.last());
            assert(x != '_');
            assert(!('A' <= x <= 'Z'));
            let t = n.push(x);
            assert(t.drop_last() =~= n);
            assert(t.last() == x);
            assert(ascii_lower(x) == x);
            assert forall|i: int| 0 <= i < t.len() implies !('A' <= #[trigger] t[i] <= 'Z') by {
                if i < n.len() {
                    assert(t[i] == n[i]);
                }
            }
            assert(!t.contains('_')) by {
                if t.contains('_') {
                    let i = choose|i: int| 0 <= i < t.len() && t[i] == '_';
                    if i < n.len() {
                        assert(t[i] == n[i]);
                        assert(n.contains('_'));
                    }
                }
            }
        }
    }
}

/// Whether every character of `s` is ASCII.
pub open spec fn all_ascii(s: Seq<char>) -> bool {
    forall|i: int| 0 <= i < s.len() ==> (s[i] as u32) < 128
}

/// Normalizes a member name for matching: underscores stripped, the rest
/// lowercased, so that `BankIndex` and `bank_index` meet.
pub fn normalize_member_name(name: &str) -> (r: String)
    ensures
        r@ == normalized(name@),
        all_ascii(name@) ==> r@ == ascii_normalized(name@),
{
    let n = name.unicode_len();
    let mut out = String::new();
    let mut i: usize = 0;
    while i < n
        invariant
            n == name@.len(),
            i <= n,
            out@ == normalized(name@.take(i as int)),
            all_ascii(name@) ==> out@ == ascii_normalized(name@.take(i as int)),
        decreases n - i,
    {
        let c = name.get_char(i);
        if c != '_' {
            let lower = char_lowercase(c);
            out.append(lower.as_str());
        }
        assert(name@.take(i + 1).drop_last() =~= name@.take(i as int));
        assert(name@.take(i + 1).last() == c);
        i += 1;
    }
    assert(name@.take(n as int) =~= name@);
    out
}

} // verus!
