//! Comparable, owned value trees of def bodies.
//!
//! A [`SemVal`] is a decoded def body with its references already resolved to
//! names or strings. Comparing two of them answers whether they encode the
//! same def data, independently of the index assignment of either side.
//! [`DiffPolicy`] optionally compares maps and lists as unordered multisets,
//! which tells a genuine data difference from a mere reordering.

use vstd::prelude::*;
use crate::bytes::{bytes_eq, str_eq};
use crate::def::text::number::{dec_chars, format_i64, format_u64, int_chars};

verus! {

/// A decoded, owned, comparable def-field value.
#[derive(Debug, PartialEq)]
pub enum SemVal {
    /// An `f32` as its raw bits: bits compare exactly and NaN-safely.
    F32(u32),
    /// Any integer, enum or flags value, widened to `i64`.
    Int(i64),
    Bool(bool),
    Str(String),
    WStr(String),
    /// A resolved def-index reference (the name if resolvable, else `idx:<n>`).
    DefRef(String),
    /// A resolved def string (the value if resolvable, else `off:<n>`).
    DefStr(String),
    PString(Vec<u8>),
    List(Vec<SemVal>),
    /// A map, as its key-value pairs in order.
    MapPairs(Vec<(SemVal, SemVal)>),
    Struct(Vec<(&'static str, SemVal)>),
    Variant(u32, Vec<(&'static str, SemVal)>),
    /// A field whose content cannot be read structurally. Two `Opaque`s
    /// compare equal by tag, so equality of a tree that
    /// [`contains_opaque`](SemVal::contains_opaque) proves no data equality.
    Opaque(&'static str),
}

/// How containers are compared.
#[derive(Clone, Copy, Debug)]
pub struct DiffPolicy {
    /// Compare `Map` pairs as an unordered multiset.
    pub unordered_maps: bool,
    /// Compare `List` elements as an unordered multiset.
    pub unordered_lists: bool,
}

/// A located structural difference.
#[derive(Clone, Debug)]
pub struct Diff {
    pub path: String,
    pub ours: String,
    pub theirs: String,
}

// ── the model ─────────────────────────────────────────────────────────────────

/// Whether `v` holds an [`SemVal::Opaque`] node anywhere.
pub open spec fn has_opaque(v: SemVal) -> bool
    decreases v,
{
    match v {
        SemVal::Opaque(_) => true,
        SemVal::List(xs) => exists|i: int| 0 <= i < xs@.len() && has_opaque(#[trigger] xs@[i]),
        SemVal::MapPairs(xs) => exists|i: int|
            0 <= i < xs@.len() && (has_opaque(#[trigger] xs@[i].0) || has_opaque(xs@[i].1)),
        SemVal::Struct(xs) => exists|i: int| 0 <= i < xs@.len() && has_opaque(#[trigger] xs@[i].1),
        SemVal::Variant(_, xs) => exists|i: int| 0 <= i < xs@.len() && has_opaque(#[trigger] xs@[i].1),
        _ => false,
    }
}

/// Equality of two leaves: the same variant with the same content.
pub open spec fn leaf_eq(a: SemVal, b: SemVal) -> bool {
    match (a, b) {
        (SemVal::F32(x), SemVal::F32(y)) => x == y,
        (SemVal::Int(x), SemVal::Int(y)) => x == y,
        (SemVal::Bool(x), SemVal::Bool(y)) => x == y,
        (SemVal::Str(x), SemVal::Str(y)) => x@ == y@,
        (SemVal::WStr(x), SemVal::WStr(y)) => x@ == y@,
        (SemVal::DefRef(x), SemVal::DefRef(y)) => x@ == y@,
        (SemVal::DefStr(x), SemVal::DefStr(y)) => x@ == y@,
        (SemVal::PString(x), SemVal::PString(y)) => x@ == y@,
        (SemVal::Opaque(x), SemVal::Opaque(y)) => x@ == y@,
        _ => false,
    }
}

/// Structural equality of `a` and `b` under `p`. Lists and maps compare
/// element by element, or, where `p` asks for it, as multisets: each
/// element of `a` in turn takes the first unused element of `b` equal to it.
pub open spec fn sem_eq_spec(a: SemVal, b: SemVal, p: DiffPolicy) -> bool
    decreases a, 0int,
{
    match a {
        SemVal::MapPairs(xa) => match b {
            SemVal::MapPairs(xb) => xa@.len() == xb@.len() && if p.unordered_maps {
                pairs_match_from(xa@, xb@, none_used(xb@.len()), p, 0)
            } else {
                forall|i: int|
                    0 <= i < xa@.len() ==> sem_eq_spec((#[trigger] xa@[i]).0, xb@[i].0, p) && sem_eq_spec(
                        xa@[i].1,
                        xb@[i].1,
                        p,
                    )
            },
            _ => false,
        },
        SemVal::List(xa) => match b {
            SemVal::List(xb) => xa@.len() == xb@.len() && if p.unordered_lists {
                items_match_from(xa@, xb@, none_used(xb@.len()), p, 0)
            } else {
                forall|i: int| 0 <= i < xa@.len() ==> sem_eq_spec(#[trigger] xa@[i], xb@[i], p)
            },
            _ => false,
        },
        SemVal::Struct(xa) => match b {
            SemVal::Struct(xb) => xa@.len() == xb@.len() && forall|i: int|
                0 <= i < xa@.len() ==> (#[trigger] xa@[i]).0@ == xb@[i].0@ && sem_eq_spec(xa@[i].1, xb@[i].1, p),
            _ => false,
        },
        SemVal::Variant(ta, xa) => match b {
            SemVal::Variant(tb, xb) => ta == tb && xa@.len() == xb@.len() && forall|i: int|
                0 <= i < xa@.len() ==> (#[trigger] xa@[i]).0@ == xb@[i].0@ && sem_eq_spec(xa@[i].1, xb@[i].1, p),
            _ => false,
        },
        _ => leaf_eq(a, b),
    }
}

/// `n` unset marks.
pub open spec fn none_used(n: nat) -> Seq<bool> {
    Seq::new(n, |j: int| false)
}

/// The first `j >= from` with `used[j]` unset and `ys[j]` equal to `x`.
pub open spec fn first_unused_match(x: SemVal, ys: Seq<SemVal>, used: Seq<bool>, p: DiffPolicy, from: int) -> Option<int>
    decreases x, ys.len() - from + 1,
{
    if 0 <= from < ys.len() {
        if !used[from] && sem_eq_spec(x, ys[from], p) {
            Some(from)
        } else {
            first_unused_match(x, ys, used, p, from + 1)
        }
    } else {
        None
    }
}

/// Whether the elements `xs[i..]` each take, in turn, the first unused equal
/// element of `ys`.
pub open spec fn items_match_from(xs: Seq<SemVal>, ys: Seq<SemVal>, used: Seq<bool>, p: DiffPolicy, i: int) -> bool
    decreases xs, xs.len() - i,
{
    if 0 <= i < xs.len() {
        match first_unused_match(xs[i], ys, used, p, 0) {
            Some(j) => items_match_from(xs, ys, used.update(j, true), p, i + 1),
            None => false,
        }
    } else {
        true
    }
}

/// The first `j >= from` with `used[j]` unset and both halves of `ys[j]`
/// equal to those of `x`.
pub open spec fn first_unused_pair(
    x: (SemVal, SemVal),
    ys: Seq<(SemVal, SemVal)>,
    used: Seq<bool>,
    p: DiffPolicy,
    from: int,
) -> Option<int>
    decreases x, ys.len() - from,
{
    if 0 <= from < ys.len() {
        if !used[from] && sem_eq_spec(x.0, ys[from].0, p) && sem_eq_spec(x.1, ys[from].1, p) {
            Some(from)
        } else {
            first_unused_pair(x, ys, used, p, from + 1)
        }
    } else {
        None
    }
}

/// Whether the pairs `xs[i..]` each take, in turn, the first unused equal
/// pair of `ys`.
pub open spec fn pairs_match_from(
    xs: Seq<(SemVal, SemVal)>,
    ys: Seq<(SemVal, SemVal)>,
    used: Seq<bool>,
    p: DiffPolicy,
    i: int,
) -> bool
    decreases xs, xs.len() - i,
{
    if 0 <= i < xs.len() {
        match first_unused_pair(xs[i], ys, used, p, 0) {
            Some(j) => pairs_match_from(xs, ys, used.update(j, true), p, i + 1),
            None => false,
        }
    } else {
        true
    }
}

/// What `{:?}` renders of a string: the string in quotes, with escapes.
pub uninterp spec fn debug_str_text(s: Seq<char>) -> Seq<char>;

/// The bytes of `s` in decimal, separated by `", "`.
pub open spec fn bytes_list_text(s: Seq<u8>) -> Seq<char>
    decreases s.len(),
{
    if s.len() == 0 {
        Seq::empty()
    } else if s.len() == 1 {
        dec_chars(s[0] as nat)
    } else {
        bytes_list_text(s.drop_last()) + ", "@ + dec_chars(s.last() as nat)
    }
}

/// The short rendering of a value in a [`Diff`]: containers by their size,
/// leaves as their debug form.
pub open spec fn short_text(v: SemVal) -> Seq<char> {
    match v {
        SemVal::List(xs) => "List(len="@ + dec_chars(xs@.len()) + ")"@,
        SemVal::MapPairs(xs) => "Map(len="@ + dec_chars(xs@.len()) + ")"@,
        SemVal::Struct(xs) => "Struct(fields="@ + dec_chars(xs@.len()) + ")"@,
        SemVal::Variant(t, xs) => "Variant(tag="@ + dec_chars(t as nat) + ",fields="@ + dec_chars(xs@.len()) + ")"@,
        SemVal::F32(x) => "F32("@ + dec_chars(x as nat) + ")"@,
        SemVal::Int(x) => "Int("@ + int_chars(x as int) + ")"@,
        SemVal::Bool(b) => if b {
            "Bool(true)"@
        } else {
            "Bool(false)"@
        },
        SemVal::Str(x) => "Str("@ + debug_str_text(x@) + ")"@,
        SemVal::WStr(x) => "WStr("@ + debug_str_text(x@) + ")"@,
        SemVal::DefRef(x) => "DefRef("@ + debug_str_text(x@) + ")"@,
        SemVal::DefStr(x) => "DefStr("@ + debug_str_text(x@) + ")"@,
        SemVal::PString(x) => "PString(["@ + bytes_list_text(x@) + "])"@,
        SemVal::Opaque(x) => "Opaque("@ + debug_str_text(x@) + ")"@,
    }
}

/// A difference in the model: its path and the renderings of both sides.
pub type DiffM = (Seq<char>, Seq<char>, Seq<char>);

/// The difference located at `path` itself.
pub open spec fn here_m(a: SemVal, b: SemVal, path: Seq<char>) -> DiffM {
    (path, short_text(a), short_text(b))
}

/// The path of member `name` under `path`.
pub open spec fn member_path(path: Seq<char>, name: Seq<char>) -> Seq<char> {
    if path.len() == 0 {
        name
    } else {
        path + "."@ + name
    }
}

/// The path of element `i` under `path`.
pub open spec fn index_path(path: Seq<char>, i: int) -> Seq<char> {
    path + "["@ + dec_chars(i as nat) + "]"@
}

/// The difference of two values that are not descended into: none where
/// they are equal under `p`, else one located at `path`.
pub open spec fn leaf_diff(a: SemVal, b: SemVal, p: DiffPolicy, path: Seq<char>) -> Option<DiffM> {
    if sem_eq_spec(a, b, p) {
        None
    } else {
        Some(here_m(a, b, path))
    }
}

/// The first structural difference of `a` and `b` under `p`, below `path`.
/// Structs and variants descend member by member; lists and maps of equal
/// length descend position by position, whatever the policy.
pub open spec fn first_diff_m(a: SemVal, b: SemVal, p: DiffPolicy, path: Seq<char>) -> Option<DiffM>
    decreases a, 0int,
{
    match a {
        SemVal::Struct(xa) => match b {
            SemVal::Struct(xb) => if xa@.len() != xb@.len() {
                Some(here_m(a, b, path))
            } else {
                members_diff_from(a, b, xa@, xb@, p, path, 0)
            },
            _ => leaf_diff(a, b, p, path),
        },
        SemVal::Variant(ta, xa) => match b {
            SemVal::Variant(tb, xb) => if ta != tb || xa@.len() != xb@.len() {
                Some(here_m(a, b, path))
            } else {
                members_diff_from(a, b, xa@, xb@, p, path, 0)
            },
            _ => leaf_diff(a, b, p, path),
        },
        SemVal::List(xa) => match b {
            SemVal::List(xb) => if xa@.len() == xb@.len() {
                items_diff_from(xa@, xb@, p, path, 0)
            } else {
                leaf_diff(a, b, p, path)
            },
            _ => leaf_diff(a, b, p, path),
        },
        SemVal::MapPairs(xa) => match b {
            SemVal::MapPairs(xb) => if xa@.len() == xb@.len() {
                pairs_diff_from(xa@, xb@, p, path, 0)
            } else {
                leaf_diff(a, b, p, path)
            },
            _ => leaf_diff(a, b, p, path),
        },
        _ => leaf_diff(a, b, p, path),
    }
}

/// The first difference among the members `i..` of `a` and `b`; a member
/// name that differs locates the difference at the parent `path`.
pub open spec fn members_diff_from(
    a: SemVal,
    b: SemVal,
    xa: Seq<(&'static str, SemVal)>,
    xb: Seq<(&'static str, SemVal)>,
    p: DiffPolicy,
    path: Seq<char>,
    i: int,
) -> Option<DiffM>
    decreases xa, xa.len() - i,
{
    if 0 <= i < xa.len() {
        if xa[i].0@ != xb[i].0@ {
            Some(here_m(a, b, path))
        } else {
            match first_diff_m(xa[i].1, xb[i].1, p, member_path(path, xa[i].0@)) {
                Some(d) => Some(d),
                None => members_diff_from(a, b, xa, xb, p, path, i + 1),
            }
        }
    } else {
        None
    }
}

/// The first difference among the elements `i..` of two lists.
pub open spec fn items_diff_from(xa: Seq<SemVal>, xb: Seq<SemVal>, p: DiffPolicy, path: Seq<char>, i: int) -> Option<DiffM>
    decreases xa, xa.len() - i,
{
    if 0 <= i < xa.len() {
        match first_diff_m(xa[i], xb[i], p, index_path(path, i)) {
            Some(d) => Some(d),
            None => items_diff_from(xa, xb, p, path, i + 1),
        }
    } else {
        None
    }
}

/// The first difference among the pairs `i..` of two maps: the key first,
/// then the value.
pub open spec fn pairs_diff_from(
    xa: Seq<(SemVal, SemVal)>,
    xb: Seq<(SemVal, SemVal)>,
    p: DiffPolicy,
    path: Seq<char>,
    i: int,
) -> Option<DiffM>
    decreases xa, xa.len() - i,
{
    if 0 <= i < xa.len() {
        match first_diff_m(xa[i].0, xb[i].0, p, index_path(path, i) + ".key"@) {
            Some(d) => Some(d),
            None => match first_diff_m(xa[i].1, xb[i].1, p, index_path(path, i)) {
                Some(d) => Some(d),
                None => pairs_diff_from(xa, xb, p, path, i + 1),
            },
        }
    } else {
        None
    }
}

/// A difference by the views of its fields.
pub open spec fn diff_view(d: Diff) -> DiffM {
    (d.path@, d.ours@, d.theirs@)
}

/// An optional difference by the views of its fields.
pub open spec fn opt_diff_view(r: Option<Diff>) -> Option<DiffM> {
    match r {
        Some(d) => Some(diff_view(d)),
        None => None,
    }
}

// ── the code ──────────────────────────────────────────────────────────────────

/// Renders `s` with `{:?}`: the `Debug` formatting of `str` in std, which
/// quotes the string and escapes quotes, backslashes and control
/// characters. Its result is named, not spelled out.
#[verifier::external_body]
fn debug_str(s: &str) -> (r: String)
    ensures
        r@ == debug_str_text(s@),
{
    format!("{:?}", s)
}

impl SemVal {
    /// Whether any node is [`SemVal::Opaque`], a region whose equality
    /// cannot be decided structurally.
    #[verifier::loop_isolation(false)]
    pub fn contains_opaque(&self) -> (r: bool)
        ensures
            r == has_opaque(*self),
        decreases self,
    {
        match self {
            SemVal::Opaque(_) => true,
            SemVal::List(xs) => {
                let mut i: usize = 0;
                while i < xs.len()
                    invariant
                        i <= xs@.len(),
                        forall|k: int| 0 <= k < i ==> !has_opaque(#[trigger] xs@[k]),
                    decreases xs@.len() - i,
                {
                    proof {
                        assert(decreases_to!(*self => xs@[i as int]));
                    }
                    if xs[i].contains_opaque() {
                        return true;
                    }
                    i += 1;
                }
                false
            },
            SemVal::MapPairs(xs) => {
                let mut i: usize = 0;
                while i < xs.len()
                    invariant
                        i <= xs@.len(),
                        forall|k: int| 0 <= k < i ==> !has_opaque((#[trigger] xs@[k]).0) && !has_opaque(xs@[k].1),
                    decreases xs@.len() - i,
                {
                    proof {
                        assert(decreases_to!(*self => xs@[i as int].0));
                        assert(decreases_to!(*self => xs@[i as int].1));
                    }
                    if xs[i].0.contains_opaque() {
                        return true;
                    }
                    if xs[i].1.contains_opaque() {
                        return true;
                    }
                    assert(!has_opaque(xs@[i as int].0) && !has_opaque(xs@[i as int].1));
                    i += 1;
                }
                false
            },
            SemVal::Struct(xs) => {
                let mut i: usize = 0;
                while i < xs.len()
                    invariant
                        i <= xs@.len(),
                        forall|k: int| 0 <= k < i ==> !has_opaque(#[trigger] xs@[k].1),
                    decreases xs@.len() - i,
                {
                    proof {
                        assert(decreases_to!(*self => xs@[i as int].1));
                    }
                    if xs[i].1.contains_opaque() {
                        return true;
                    }
                    i += 1;
                }
                false
            },
            SemVal::Variant(_, xs) => {
                let mut i: usize = 0;
                while i < xs.len()
                    invariant
                        i <= xs@.len(),
                        forall|k: int| 0 <= k < i ==> !has_opaque(#[trigger] xs@[k].1),
                    decreases xs@.len() - i,
                {
                    proof {
                        assert(decreases_to!(*self => xs@[i as int].1));
                    }
                    if xs[i].1.contains_opaque() {
                        return true;
                    }
                    i += 1;
                }
                false
            },
            _ => false,
        }
    }
}

impl DiffPolicy {
    /// Exact structural comparison: order matters everywhere.
    pub fn strict() -> (r: Self)
        ensures
            !r.unordered_maps,
            !r.unordered_lists,
    {
        DiffPolicy { unordered_maps: false, unordered_lists: false }
    }

    /// Order-insensitive comparison of maps and lists.
    pub fn unordered() -> (r: Self)
        ensures
            r.unordered_maps,
            r.unordered_lists,
    {
        DiffPolicy { unordered_maps: true, unordered_lists: true }
    }
}

impl Default for DiffPolicy {
    /// The strict policy.
    fn default() -> (r: Self)
        ensures
            !r.unordered_maps,
            !r.unordered_lists,
    {
        DiffPolicy::strict()
    }
}

fn leaf_eq_exec(a: &SemVal, b: &SemVal) -> (r: bool)
    ensures
        r == leaf_eq(*a, *b),
{
    match (a, b) {
        (SemVal::F32(x), SemVal::F32(y)) => *x == *y,
        (SemVal::Int(x), SemVal::Int(y)) => *x == *y,
        (SemVal::Bool(x), SemVal::Bool(y)) => *x == *y,
        (SemVal::Str(x), SemVal::Str(y)) => str_eq(x.as_str(), y.as_str()),
        (SemVal::WStr(x), SemVal::WStr(y)) => str_eq(x.as_str(), y.as_str()),
        (SemVal::DefRef(x), SemVal::DefRef(y)) => str_eq(x.as_str(), y.as_str()),
        (SemVal::DefStr(x), SemVal::DefStr(y)) => str_eq(x.as_str(), y.as_str()),
        (SemVal::PString(x), SemVal::PString(y)) => bytes_eq(x.as_slice(), y.as_slice()),
        (SemVal::Opaque(x), SemVal::Opaque(y)) => str_eq(*x, *y),
        _ => false,
    }
}

/// Structural equality under `policy`.
#[verifier::loop_isolation(false)]
pub fn sem_eq(a: &SemVal, b: &SemVal, policy: DiffPolicy) -> (r: bool)
    ensures
        r == sem_eq_spec(*a, *b, policy),
    decreases *a, 1int,
{
    match a {
        SemVal::MapPairs(xa) => match b {
            SemVal::MapPairs(xb) => {
                if xa.len() != xb.len() {
                    return false;
                }
                if policy.unordered_maps {
                    pairs_multiset_eq(xa, xb, policy, Ghost(*a))
                } else {
                    let mut i: usize = 0;
                    while i < xa.len()
                        invariant
                            i <= xa@.len(),
                            xa@.len() == xb@.len(),
                            forall|k: int|
                                0 <= k < i ==> sem_eq_spec((#[trigger] xa@[k]).0, xb@[k].0, policy) && sem_eq_spec(
                                    xa@[k].1,
                                    xb@[k].1,
                                    policy,
                                ),
                        decreases xa@.len() - i,
                    {
                        proof {
                            assert(decreases_to!(*a => xa@[i as int].0));
                            assert(decreases_to!(*a => xa@[i as int].1));
                        }
                        if !(sem_eq(&xa[i].0, &xb[i].0, policy) && sem_eq(&xa[i].1, &xb[i].1, policy)) {
                            return false;
                        }
                        i += 1;
                    }
                    true
                }
            },
            _ => false,
        },
        SemVal::List(xa) => match b {
            SemVal::List(xb) => {
                if xa.len() != xb.len() {
                    return false;
                }
                if policy.unordered_lists {
                    items_multiset_eq(xa, xb, policy, Ghost(*a))
                } else {
                    let mut i: usize = 0;
                    while i < xa.len()
                        invariant
                            i <= xa@.len(),
                            xa@.len() == xb@.len(),
                            forall|k: int| 0 <= k < i ==> sem_eq_spec(#[trigger] xa@[k], xb@[k], policy),
                        decreases xa@.len() - i,
                    {
                        proof {
                            assert(decreases_to!(*a => xa@[i as int]));
                        }
                        if !sem_eq(&xa[i], &xb[i], policy) {
                            return false;
                        }
                        i += 1;
                    }
                    true
                }
            },
            _ => false,
        },
        SemVal::Struct(xa) => match b {
            SemVal::Struct(xb) => {
                if xa.len() != xb.len() {
                    return false;
                }
                let mut i: usize = 0;
                while i < xa.len()
                    invariant
                        i <= xa@.len(),
                        xa@.len() == xb@.len(),
                        forall|k: int|
                            0 <= k < i ==> (#[trigger] xa@[k]).0@ == xb@[k].0@ && sem_eq_spec(xa@[k].1, xb@[k].1, policy),
                    decreases xa@.len() - i,
                {
                    proof {
                        assert(decreases_to!(*a => xa@[i as int].1));
                    }
                    if !(str_eq(xa[i].0, xb[i].0) && sem_eq(&xa[i].1, &xb[i].1, policy)) {
                        return false;
                    }
                    i += 1;
                }
                true
            },
            _ => false,
        },
        SemVal::Variant(ta, xa) => match b {
            SemVal::Variant(tb, xb) => {
                if *ta != *tb || xa.len() != xb.len() {
                    return false;
                }
                let mut i: usize = 0;
                while i < xa.len()
                    invariant
                        i <= xa@.len(),
                        xa@.len() == xb@.len(),
                        forall|k: int|
                            0 <= k < i ==> (#[trigger] xa@[k]).0@ == xb@[k].0@ && sem_eq_spec(xa@[k].1, xb@[k].1, policy),
                    decreases xa@.len() - i,
                {
                    proof {
                        assert(decreases_to!(*a => xa@[i as int].1));
                    }
                    if !(str_eq(xa[i].0, xb[i].0) && sem_eq(&xa[i].1, &xb[i].1, policy)) {
                        return false;
                    }
                    i += 1;
                }
                true
            },
            _ => false,
        },
        _ => leaf_eq_exec(a, b),
    }
}

/// Whether each element of `xs` in turn takes the first unused element of
/// `ys` equal to it.
fn items_multiset_eq(xs: &Vec<SemVal>, ys: &Vec<SemVal>, p: DiffPolicy, Ghost(parent): Ghost<SemVal>) -> (r: bool)
    requires
        decreases_to!(parent => xs@),
    ensures
        r == items_match_from(xs@, ys@, none_used(ys@.len()), p, 0),
    decreases parent, 0int,
{
    let ghost unused = none_used(ys@.len());
    let mut used: Vec<bool> = Vec::new();
    let mut k: usize = 0;
    while k < ys.len()
        invariant
            k <= ys@.len(),
            used@ == Seq::new(k as nat, |j: int| false),
        decreases ys@.len() - k,
    {
        used.push(false);
        k += 1;
    }
    assert(used@ =~= unused);
    let mut i: usize = 0;
    while i < xs.len()
        invariant
            decreases_to!(parent => xs@),
            unused == none_used(ys@.len()),
            i <= xs@.len(),
            used@.len() == ys@.len(),
            items_match_from(xs@, ys@, unused, p, 0) == items_match_from(xs@, ys@, used@, p, i as int),
        decreases xs@.len() - i,
    {
        proof {
            assert(decreases_to!(parent => xs@[i as int]));
        }
        let mut j: usize = 0;
        let mut hit = false;
        while j < ys.len() && !hit
            invariant
                decreases_to!(parent => xs@[i as int]),
                i < xs@.len(),
                j <= ys@.len(),
                used@.len() == ys@.len(),
                hit ==> j < ys@.len() && first_unused_match(xs@[i as int], ys@, used@, p, 0) == Some(j as int),
                !hit ==> first_unused_match(xs@[i as int], ys@, used@, p, 0) == first_unused_match(
                    xs@[i as int],
                    ys@,
                    used@,
                    p,
                    j as int,
                ),
            decreases ys@.len() - j + (if hit { 0int } else { 1int }),
        {
            if !used[j] && sem_eq(&xs[i], &ys[j], p) {
                hit = true;
            } else {
                j += 1;
            }
        }
        if !hit {
            assert(first_unused_match(xs@[i as int], ys@, used@, p, j as int) == None::<int>);
            return false;
        }
        used.set(j, true);
        i += 1;
    }
    true
}

/// Whether each pair of `xs` in turn takes the first unused pair of `ys`
/// equal to it.
fn pairs_multiset_eq(
    xs: &Vec<(SemVal, SemVal)>,
    ys: &Vec<(SemVal, SemVal)>,
    p: DiffPolicy,
    Ghost(parent): Ghost<SemVal>,
) -> (r: bool)
    requires
        decreases_to!(parent => xs@),
    ensures
        r == pairs_match_from(xs@, ys@, none_used(ys@.len()), p, 0),
    decreases parent, 0int,
{
    let ghost unused = none_used(ys@.len());
    let mut used: Vec<bool> = Vec::new();
    let mut k: usize = 0;
    while k < ys.len()
        invariant
            k <= ys@.len(),
            used@ == Seq::new(k as nat, |j: int| false),
        decreases ys@.len() - k,
    {
        used.push(false);
        k += 1;
    }
    assert(used@ =~= unused);
    let mut i: usize = 0;
    while i < xs.len()
        invariant
            decreases_to!(parent => xs@),
            unused == none_used(ys@.len()),
            i <= xs@.len(),
            used@.len() == ys@.len(),
            pairs_match_from(xs@, ys@, unused, p, 0) == pairs_match_from(xs@, ys@, used@, p, i as int),
        decreases xs@.len() - i,
    {
        proof {
            assert(decreases_to!(parent => xs@[i as int].0));
            assert(decreases_to!(parent => xs@[i as int].1));
        }
        let mut j: usize = 0;
        let mut hit = false;
        while j < ys.len() && !hit
            invariant
                decreases_to!(parent => xs@[i as int].0),
                decreases_to!(parent => xs@[i as int].1),
                i < xs@.len(),
                j <= ys@.len(),
                used@.len() == ys@.len(),
                hit ==> j < ys@.len() && first_unused_pair(xs@[i as int], ys@, used@, p, 0) == Some(j as int),
                !hit ==> first_unused_pair(xs@[i as int], ys@, used@, p, 0) == first_unused_pair(
                    xs@[i as int],
                    ys@,
                    used@,
                    p,
                    j as int,
                ),
            decreases ys@.len() - j + (if hit { 0int } else { 1int }),
        {
            if !used[j] && sem_eq(&xs[i].0, &ys[j].0, p) && sem_eq(&xs[i].1, &ys[j].1, p) {
                hit = true;
            } else {
                j += 1;
            }
        }
        if !hit {
            assert(first_unused_pair(xs@[i as int], ys@, used@, p, j as int) == None::<int>);
            return false;
        }
        used.set(j, true);
        i += 1;
    }
    true
}

fn concat3(x: &str, y: &str, z: &str) -> (r: String)
    ensures
        r@ == x@ + y@ + z@,
{
    let mut out = x.to_owned();
    out.append(y);
    out.append(z);
    out
}

fn bytes_list(b: &Vec<u8>) -> (r: String)
    ensures
        r@ == bytes_list_text(b@),
{
    let mut out = String::new();
    let mut i: usize = 0;
    while i < b.len()
        invariant
            i <= b@.len(),
            out@ == bytes_list_text(b@.take(i as int)),
        decreases b@.len() - i,
    {
        if i > 0 {
            out.append(", ");
        }
        let d = format_u64(b[i] as u64);
        out.append(d.as_str());
        i += 1;
        proof {
            assert(b@.take(i as int).drop_last() =~= b@.take(i - 1));
        }
    }
    assert(b@.take(b@.len() as int) =~= b@);
    out
}

/// The short rendering of `v`: containers by their size, leaves as their
/// debug form.
fn short(v: &SemVal) -> (r: String)
    ensures
        r@ == short_text(*v),
{
    match v {
        SemVal::List(xs) => concat3("List(len=", format_u64(xs.len() as u64).as_str(), ")"),
        SemVal::MapPairs(xs) => concat3("Map(len=", format_u64(xs.len() as u64).as_str(), ")"),
        SemVal::Struct(xs) => concat3("Struct(fields=", format_u64(xs.len() as u64).as_str(), ")"),
        SemVal::Variant(t, xs) => {
            let mut out = concat3("Variant(tag=", format_u64(*t as u64).as_str(), ",fields=");
            out.append(format_u64(xs.len() as u64).as_str());
            out.append(")");
            out
        },
        SemVal::F32(x) => concat3("F32(", format_u64(*x as u64).as_str(), ")"),
        SemVal::Int(x) => concat3("Int(", format_i64(*x).as_str(), ")"),
        SemVal::Bool(b) => if *b {
            "Bool(true)".to_owned()
        } else {
            "Bool(false)".to_owned()
        },
        SemVal::Str(x) => concat3("Str(", debug_str(x.as_str()).as_str(), ")"),
        SemVal::WStr(x) => concat3("WStr(", debug_str(x.as_str()).as_str(), ")"),
        SemVal::DefRef(x) => concat3("DefRef(", debug_str(x.as_str()).as_str(), ")"),
        SemVal::DefStr(x) => concat3("DefStr(", debug_str(x.as_str()).as_str(), ")"),
        SemVal::PString(x) => concat3("PString([", bytes_list(x).as_str(), "])"),
        SemVal::Opaque(x) => concat3("Opaque(", debug_str(*x).as_str(), ")"),
    }
}

fn here(a: &SemVal, b: &SemVal, path: &String) -> (r: Diff)
    ensures
        diff_view(r) == here_m(*a, *b, path@),
{
    Diff { path: path.clone(), ours: short(a), theirs: short(b) }
}

fn leaf_diff_exec(a: &SemVal, b: &SemVal, p: DiffPolicy, path: &String) -> (r: Option<Diff>)
    ensures
        opt_diff_view(r) == leaf_diff(*a, *b, p, path@),
{
    if sem_eq(a, b, p) {
        None
    } else {
        Some(here(a, b, path))
    }
}

fn member_path_exec(path: &String, name: &str) -> (r: String)
    ensures
        r@ == member_path(path@, name@),
{
    if path.as_str().is_empty() {
        name.to_owned()
    } else {
        concat3(path.as_str(), ".", name)
    }
}

fn index_path_exec(path: &String, i: usize) -> (r: String)
    ensures
        r@ == index_path(path@, i as int),
{
    let mut out = concat3(path.as_str(), "[", format_u64(i as u64).as_str());
    out.append("]");
    out
}

/// The first difference among the members of `a` and `b`, which are `xa`
/// and `xb`.
#[verifier::loop_isolation(false)]
fn members_diff(
    a: &SemVal,
    b: &SemVal,
    xa: &Vec<(&'static str, SemVal)>,
    xb: &Vec<(&'static str, SemVal)>,
    p: DiffPolicy,
    path: &String,
) -> (r: Option<Diff>)
    requires
        decreases_to!(*a => xa@),
        xa@.len() == xb@.len(),
    ensures
        opt_diff_view(r) == members_diff_from(*a, *b, xa@, xb@, p, path@, 0),
    decreases *a, 0int,
{
    let mut i: usize = 0;
    while i < xa.len()
        invariant
            i <= xa@.len(),
            members_diff_from(*a, *b, xa@, xb@, p, path@, 0) == members_diff_from(
                *a,
                *b,
                xa@,
                xb@,
                p,
                path@,
                i as int,
            ),
        decreases xa@.len() - i,
    {
        if !str_eq(xa[i].0, xb[i].0) {
            return Some(here(a, b, path));
        }
        let sub = member_path_exec(path, xa[i].0);
        proof {
            assert(decreases_to!(*a => xa@[i as int].1));
        }
        match first_diff_at(&xa[i].1, &xb[i].1, p, &sub) {
            Some(d) => {
                return Some(d);
            },
            None => {},
        }
        i += 1;
    }
    None
}

/// The first difference of `a` and `b` under `p`, below `path`.
#[verifier::loop_isolation(false)]
fn first_diff_at(a: &SemVal, b: &SemVal, p: DiffPolicy, path: &String) -> (r: Option<Diff>)
    ensures
        opt_diff_view(r) == first_diff_m(*a, *b, p, path@),
    decreases *a, 1int,
{
    match a {
        SemVal::Struct(xa) => match b {
            SemVal::Struct(xb) => {
                if xa.len() != xb.len() {
                    return Some(here(a, b, path));
                }
                members_diff(a, b, xa, xb, p, path)
            },
            _ => leaf_diff_exec(a, b, p, path),
        },
        SemVal::Variant(ta, xa) => match b {
            SemVal::Variant(tb, xb) => {
                if *ta != *tb || xa.len() != xb.len() {
                    return Some(here(a, b, path));
                }
                members_diff(a, b, xa, xb, p, path)
            },
            _ => leaf_diff_exec(a, b, p, path),
        },
        SemVal::List(xa) => match b {
            SemVal::List(xb) => {
                if xa.len() != xb.len() {
                    return leaf_diff_exec(a, b, p, path);
                }
                let mut i: usize = 0;
                while i < xa.len()
                    invariant
                        i <= xa@.len(),
                        items_diff_from(xa@, xb@, p, path@, 0) == items_diff_from(xa@, xb@, p, path@, i as int),
                    decreases xa@.len() - i,
                {
                    let sub = index_path_exec(path, i);
                    proof {
                        assert(decreases_to!(*a => xa@[i as int]));
                    }
                    match first_diff_at(&xa[i], &xb[i], p, &sub) {
                        Some(d) => {
                            return Some(d);
                        },
                        None => {},
                    }
                    i += 1;
                }
                None
            },
            _ => leaf_diff_exec(a, b, p, path),
        },
        SemVal::MapPairs(xa) => match b {
            SemVal::MapPairs(xb) => {
                if xa.len() != xb.len() {
                    return leaf_diff_exec(a, b, p, path);
                }
                let mut i: usize = 0;
                while i < xa.len()
                    invariant
                        i <= xa@.len(),
                        pairs_diff_from(xa@, xb@, p, path@, 0) == pairs_diff_from(xa@, xb@, p, path@, i as int),
                    decreases xa@.len() - i,
                {
                    let at = index_path_exec(path, i);
                    let mut key = at.clone();
                    key.append(".key");
                    proof {
                        assert(decreases_to!(*a => xa@[i as int].0));
                        assert(decreases_to!(*a => xa@[i as int].1));
                    }
                    match first_diff_at(&xa[i].0, &xb[i].0, p, &key) {
                        Some(d) => {
                            return Some(d);
                        },
                        None => {},
                    }
                    match first_diff_at(&xa[i].1, &xb[i].1, p, &at) {
                        Some(d) => {
                            return Some(d);
                        },
                        None => {},
                    }
                    i += 1;
                }
                None
            },
            _ => leaf_diff_exec(a, b, p, path),
        },
        _ => leaf_diff_exec(a, b, p, path),
    }
}

/// The dotted path to the first structural divergence of `a` and `b` under
/// `policy`, with a short rendering of each side; `None` where there is
/// none. Lists and maps of equal length are descended position by position
/// whatever the policy, which locates the leaf that differs.
pub fn first_diff(a: &SemVal, b: &SemVal, policy: DiffPolicy) -> (r: Option<Diff>)
    ensures
        opt_diff_view(r) == first_diff_m(*a, *b, policy, Seq::empty()),
{
    let path = String::new();
    first_diff_at(a, b, policy, &path)
}

// ── laws ──────────────────────────────────────────────────────────────────────

/// Under a policy that keeps order everywhere, every value equals itself.
pub proof fn lemma_sem_eq_reflexive(a: SemVal, p: DiffPolicy)
    requires
        !p.unordered_maps,
        !p.unordered_lists,
    ensures
        sem_eq_spec(a, a, p),
    decreases a,
{
    match a {
        SemVal::MapPairs(xa) => {
            assert forall|i: int| 0 <= i < xa@.len() implies sem_eq_spec((#[trigger] xa@[i]).0, xa@[i].0, p)
                && sem_eq_spec(xa@[i].1, xa@[i].1, p) by {
                lemma_sem_eq_reflexive(xa@[i].0, p);
                lemma_sem_eq_reflexive(xa@[i].1, p);
            }
        },
        SemVal::List(xa) => {
            assert forall|i: int| 0 <= i < xa@.len() implies sem_eq_spec(#[trigger] xa@[i], xa@[i], p) by {
                lemma_sem_eq_reflexive(xa@[i], p);
            }
        },
        SemVal::Struct(xa) => {
            assert forall|i: int| 0 <= i < xa@.len() implies (#[trigger] xa@[i]).0@ == xa@[i].0@ && sem_eq_spec(
                xa@[i].1,
                xa@[i].1,
                p,
            ) by {
                lemma_sem_eq_reflexive(xa@[i].1, p);
            }
        },
        SemVal::Variant(_, xa) => {
            assert forall|i: int| 0 <= i < xa@.len() implies (#[trigger] xa@[i]).0@ == xa@[i].0@ && sem_eq_spec(
                xa@[i].1,
                xa@[i].1,
                p,
            ) by {
                lemma_sem_eq_reflexive(xa@[i].1, p);
            }
        },
        _ => {},
    }
}

/// Under a policy that keeps order everywhere, equality does not depend on
/// the order of the two values.
pub proof fn lemma_sem_eq_symmetric(a: SemVal, b: SemVal, p: DiffPolicy)
    requires
        !p.unordered_maps,
        !p.unordered_lists,
    ensures
        sem_eq_spec(a, b, p) == sem_eq_spec(b, a, p),
    decreases a,
{
    match a {
        SemVal::MapPairs(xa) => match b {
            SemVal::MapPairs(xb) => {
                if xa@.len() == xb@.len() {
                    assert forall|i: int| 0 <= i < xa@.len() implies sem_eq_spec((#[trigger] xa@[i]).0, xb@[i].0, p)
                        == sem_eq_spec(xb@[i].0, xa@[i].0, p) && sem_eq_spec(xa@[i].1, xb@[i].1, p)
                        == sem_eq_spec(xb@[i].1, xa@[i].1, p) by {
                        lemma_sem_eq_symmetric(xa@[i].0, xb@[i].0, p);
                        lemma_sem_eq_symmetric(xa@[i].1, xb@[i].1, p);
                    }
                    if sem_eq_spec(b, a, p) {
                        assert forall|i: int| 0 <= i < xa@.len() implies sem_eq_spec((#[trigger] xa@[i]).0, xb@[i].0, p)
                            && sem_eq_spec(xa@[i].1, xb@[i].1, p) by {
                            assert(sem_eq_spec(xb@[i].0, xa@[i].0, p));
                        }
                    }
                    if sem_eq_spec(a, b, p) {
                        assert forall|i: int| 0 <= i < xb@.len() implies sem_eq_spec((#[trigger] xb@[i]).0, xa@[i].0, p)
                            && sem_eq_spec(xb@[i].1, xa@[i].1, p) by {
                            assert(sem_eq_spec(xa@[i].0, xb@[i].0, p));
                        }
                    }
                }
            },
            _ => {},
        },
        SemVal::List(xa) => match b {
            SemVal::List(xb) => {
                if xa@.len() == xb@.len() {
                    assert forall|i: int| 0 <= i < xa@.len() implies sem_eq_spec(#[trigger] xa@[i], xb@[i], p)
                        == sem_eq_spec(xb@[i], xa@[i], p) by {
                        lemma_sem_eq_symmetric(xa@[i], xb@[i], p);
                    }
                    if sem_eq_spec(b, a, p) {
                        assert forall|i: int| 0 <= i < xa@.len() implies sem_eq_spec(#[trigger] xa@[i], xb@[i], p) by {
                            assert(sem_eq_spec(xb@[i], xa@[i], p));
                        }
                    }
                    if sem_eq_spec(a, b, p) {
                        assert forall|i: int| 0 <= i < xb@.len() implies sem_eq_spec(#[trigger] xb@[i], xa@[i], p) by {
                            assert(sem_eq_spec(xa@[i], xb@[i], p));
                        }
                    }
                }
            },
            _ => {},
        },
        SemVal::Struct(xa) => match b {
            SemVal::Struct(xb) => {
                if xa@.len() == xb@.len() {
                    assert forall|i: int| 0 <= i < xa@.len() implies sem_eq_spec((#[trigger] xa@[i]).1, xb@[i].1, p)
                        == sem_eq_spec(xb@[i].1, xa@[i].1, p) by {
                        lemma_sem_eq_symmetric(xa@[i].1, xb@[i].1, p);
                    }
                    if sem_eq_spec(b, a, p) {
                        assert forall|i: int| 0 <= i < xa@.len() implies (#[trigger] xa@[i]).0@ == xb@[i].0@
                            && sem_eq_spec(xa@[i].1, xb@[i].1, p) by {
                            assert(xb@[i].0@ == xa@[i].0@ && sem_eq_spec(xb@[i].1, xa@[i].1, p));
                        }
                    }
                    if sem_eq_spec(a, b, p) {
                        assert forall|i: int| 0 <= i < xb@.len() implies (#[trigger] xb@[i]).0@ == xa@[i].0@
                            && sem_eq_spec(xb@[i].1, xa@[i].1, p) by {
                            assert(xa@[i].0@ == xb@[i].0@ && sem_eq_spec(xa@[i].1, xb@[i].1, p));
                        }
                    }
                }
            },
            _ => {},
        },
        SemVal::Variant(ta, xa) => match b {
            SemVal::Variant(tb, xb) => {
                if ta == tb && xa@.len() == xb@.len() {
                    assert forall|i: int| 0 <= i < xa@.len() implies sem_eq_spec((#[trigger] xa@[i]).1, xb@[i].1, p)
                        == sem_eq_spec(xb@[i].1, xa@[i].1, p) by {
                        lemma_sem_eq_symmetric(xa@[i].1, xb@[i].1, p);
                    }
                    if sem_eq_spec(b, a, p) {
                        assert forall|i: int| 0 <= i < xa@.len() implies (#[trigger] xa@[i]).0@ == xb@[i].0@
                            && sem_eq_spec(xa@[i].1, xb@[i].1, p) by {
                            assert(xb@[i].0@ == xa@[i].0@ && sem_eq_spec(xb@[i].1, xa@[i].1, p));
                        }
                    }
                    if sem_eq_spec(a, b, p) {
                        assert forall|i: int| 0 <= i < xb@.len() implies (#[trigger] xb@[i]).0@ == xa@[i].0@
                            && sem_eq_spec(xb@[i].1, xa@[i].1, p) by {
                            assert(xa@[i].0@ == xb@[i].0@ && sem_eq_spec(xa@[i].1, xb@[i].1, p));
                        }
                    }
                }
            },
            _ => {},
        },
        _ => {},
    }
}

/// The first `i` of `n` marks set.
pub open spec fn used_below(n: nat, i: int) -> Seq<bool> {
    Seq::new(n, |j: int| j < i)
}

proof fn lemma_first_unused_is(x: SemVal, ys: Seq<SemVal>, used: Seq<bool>, p: DiffPolicy, from: int, i: int)
    requires
        0 <= from <= i < ys.len(),
        used.len() == ys.len(),
        forall|j: int| from <= j < i ==> used[j],
        !used[i],
        sem_eq_spec(x, ys[i], p),
    ensures
        first_unused_match(x, ys, used, p, from) == Some(i),
    decreases i - from,
{
    if from < i {
        lemma_first_unused_is(x, ys, used, p, from + 1, i);
    }
}

proof fn lemma_first_unused_pair_is(
    x: (SemVal, SemVal),
    ys: Seq<(SemVal, SemVal)>,
    used: Seq<bool>,
    p: DiffPolicy,
    from: int,
    i: int,
)
    requires
        0 <= from <= i < ys.len(),
        used.len() == ys.len(),
        forall|j: int| from <= j < i ==> used[j],
        !used[i],
        sem_eq_spec(x.0, ys[i].0, p),
        sem_eq_spec(x.1, ys[i].1, p),
    ensures
        first_unused_pair(x, ys, used, p, from) == Some(i),
    decreases i - from,
{
    if from < i {
        lemma_first_unused_pair_is(x, ys, used, p, from + 1, i);
    }
}

/// Elements equal in order are matched in order: each takes the element
/// at its own index.
proof fn lemma_items_match_in_order(xs: Seq<SemVal>, ys: Seq<SemVal>, p: DiffPolicy, i: int)
    requires
        xs.len() == ys.len(),
        0 <= i <= xs.len(),
        forall|k: int| 0 <= k < xs.len() ==> sem_eq_spec(#[trigger] xs[k], ys[k], p),
    ensures
        items_match_from(xs, ys, used_below(ys.len(), i), p, i),
    decreases xs.len() - i,
{
    if i < xs.len() {
        let used = used_below(ys.len(), i);
        assert(sem_eq_spec(xs[i], ys[i], p));
        lemma_first_unused_is(xs[i], ys, used, p, 0, i);
        assert(used.update(i, true) =~= used_below(ys.len(), i + 1));
        lemma_items_match_in_order(xs, ys, p, i + 1);
    }
}

/// Pairs equal in order are matched in order.
proof fn lemma_pairs_match_in_order(xs: Seq<(SemVal, SemVal)>, ys: Seq<(SemVal, SemVal)>, p: DiffPolicy, i: int)
    requires
        xs.len() == ys.len(),
        0 <= i <= xs.len(),
        forall|k: int| 0 <= k < xs.len() ==> sem_eq_spec((#[trigger] xs[k]).0, ys[k].0, p) && sem_eq_spec(xs[k].1, ys[k].1, p),
    ensures
        pairs_match_from(xs, ys, used_below(ys.len(), i), p, i),
    decreases xs.len() - i,
{
    if i < xs.len() {
        let used = used_below(ys.len(), i);
        assert(sem_eq_spec(xs[i].0, ys[i].0, p) && sem_eq_spec(xs[i].1, ys[i].1, p));
        lemma_first_unused_pair_is(xs[i], ys, used, p, 0, i);
        assert(used.update(i, true) =~= used_below(ys.len(), i + 1));
        lemma_pairs_match_in_order(xs, ys, p, i + 1);
    }
}

/// Values equal under a policy that keeps order everywhere (such as
/// [`DiffPolicy::strict`]) are equal under every policy: where lists or
/// maps are compared as multisets, each element takes its counterpart at
/// the same index.
pub proof fn lemma_ordered_equal_implies_equal(a: SemVal, b: SemVal, s: DiffPolicy, p: DiffPolicy)
    requires
        !s.unordered_maps,
        !s.unordered_lists,
        sem_eq_spec(a, b, s),
    ensures
        sem_eq_spec(a, b, p),
    decreases a,
{
    match a {
        SemVal::MapPairs(xa) => match b {
            SemVal::MapPairs(xb) => {
                assert forall|i: int| 0 <= i < xa@.len() implies sem_eq_spec((#[trigger] xa@[i]).0, xb@[i].0, p)
                    && sem_eq_spec(xa@[i].1, xb@[i].1, p) by {
                    lemma_ordered_equal_implies_equal(xa@[i].0, xb@[i].0, s, p);
                    lemma_ordered_equal_implies_equal(xa@[i].1, xb@[i].1, s, p);
                }
                if p.unordered_maps {
                    lemma_pairs_match_in_order(xa@, xb@, p, 0);
                    assert(used_below(xb@.len(), 0) =~= none_used(xb@.len()));
                }
            },
            _ => {},
        },
        SemVal::List(xa) => match b {
            SemVal::List(xb) => {
                assert forall|i: int| 0 <= i < xa@.len() implies sem_eq_spec(#[trigger] xa@[i], xb@[i], p) by {
                    lemma_ordered_equal_implies_equal(xa@[i], xb@[i], s, p);
                }
                if p.unordered_lists {
                    lemma_items_match_in_order(xa@, xb@, p, 0);
                    assert(used_below(xb@.len(), 0) =~= none_used(xb@.len()));
                }
            },
            _ => {},
        },
        SemVal::Struct(xa) => match b {
            SemVal::Struct(xb) => {
                assert forall|i: int| 0 <= i < xa@.len() implies (#[trigger] xa@[i]).0@ == xb@[i].0@ && sem_eq_spec(
                    xa@[i].1,
                    xb@[i].1,
                    p,
                ) by {
                    lemma_ordered_equal_implies_equal(xa@[i].1, xb@[i].1, s, p);
                }
            },
            _ => {},
        },
        SemVal::Variant(_, xa) => match b {
            SemVal::Variant(_, xb) => {
                assert forall|i: int| 0 <= i < xa@.len() implies (#[trigger] xa@[i]).0@ == xb@[i].0@ && sem_eq_spec(
                    xa@[i].1,
                    xb@[i].1,
                    p,
                ) by {
                    lemma_ordered_equal_implies_equal(xa@[i].1, xb@[i].1, s, p);
                }
            },
            _ => {},
        },
        _ => {},
    }
}

/// Every value equals itself, under every policy.
pub proof fn lemma_sem_eq_reflexive_any(a: SemVal, p: DiffPolicy)
    ensures
        sem_eq_spec(a, a, p),
{
    let s = DiffPolicy { unordered_maps: false, unordered_lists: false };
    lemma_sem_eq_reflexive(a, s);
    lemma_ordered_equal_implies_equal(a, a, s, p);
}

proof fn lemma_items_none(xa: Seq<SemVal>, xb: Seq<SemVal>, p: DiffPolicy, path: Seq<char>, i: int)
    requires
        0 <= i <= xa.len(),
        forall|k: int| i <= k < xa.len() ==> (#[trigger] first_diff_m(xa[k], xb[k], p, index_path(path, k))) is None,
    ensures
        items_diff_from(xa, xb, p, path, i) is None,
    decreases xa.len() - i,
{
    if i < xa.len() {
        assert(first_diff_m(xa[i], xb[i], p, index_path(path, i)) is None);
        lemma_items_none(xa, xb, p, path, i + 1);
    }
}

proof fn lemma_pairs_none(xa: Seq<(SemVal, SemVal)>, xb: Seq<(SemVal, SemVal)>, p: DiffPolicy, path: Seq<char>, i: int)
    requires
        0 <= i <= xa.len(),
        forall|k: int|
            i <= k < xa.len() ==> (#[trigger] first_diff_m(xa[k].0, xb[k].0, p, index_path(path, k) + ".key"@)) is None
                && first_diff_m(xa[k].1, xb[k].1, p, index_path(path, k)) is None,
    ensures
        pairs_diff_from(xa, xb, p, path, i) is None,
    decreases xa.len() - i,
{
    if i < xa.len() {
        assert(first_diff_m(xa[i].0, xb[i].0, p, index_path(path, i) + ".key"@) is None);
        lemma_pairs_none(xa, xb, p, path, i + 1);
    }
}

proof fn lemma_members_none(
    a: SemVal,
    b: SemVal,
    xa: Seq<(&'static str, SemVal)>,
    xb: Seq<(&'static str, SemVal)>,
    p: DiffPolicy,
    path: Seq<char>,
    i: int,
)
    requires
        0 <= i <= xa.len(),
        xa.len() == xb.len(),
        forall|k: int|
            i <= k < xa.len() ==> (#[trigger] xa[k]).0@ == xb[k].0@ && first_diff_m(
                xa[k].1,
                xb[k].1,
                p,
                member_path(path, xa[k].0@),
            ) is None,
    ensures
        members_diff_from(a, b, xa, xb, p, path, i) is None,
    decreases xa.len() - i,
{
    if i < xa.len() {
        assert(xa[i].0@ == xb[i].0@);
        lemma_members_none(a, b, xa, xb, p, path, i + 1);
    }
}

/// Values equal under a policy that keeps order everywhere (such as
/// [`DiffPolicy::strict`]) have no difference under any policy, below any
/// path.
pub proof fn lemma_ordered_equal_has_no_diff(a: SemVal, b: SemVal, s: DiffPolicy, p: DiffPolicy, path: Seq<char>)
    requires
        !s.unordered_maps,
        !s.unordered_lists,
        sem_eq_spec(a, b, s),
    ensures
        first_diff_m(a, b, p, path) is None,
    decreases a,
{
    lemma_ordered_equal_implies_equal(a, b, s, p);
    match a {
        SemVal::Struct(xa) => match b {
            SemVal::Struct(xb) => {
                assert forall|k: int| 0 <= k < xa@.len() implies (#[trigger] xa@[k]).0@ == xb@[k].0@ && first_diff_m(
                    xa@[k].1,
                    xb@[k].1,
                    p,
                    member_path(path, xa@[k].0@),
                ) is None by {
                    lemma_ordered_equal_has_no_diff(xa@[k].1, xb@[k].1, s, p, member_path(path, xa@[k].0@));
                }
                lemma_members_none(a, b, xa@, xb@, p, path, 0);
            },
            _ => {},
        },
        SemVal::Variant(_, xa) => match b {
            SemVal::Variant(_, xb) => {
                assert forall|k: int| 0 <= k < xa@.len() implies (#[trigger] xa@[k]).0@ == xb@[k].0@ && first_diff_m(
                    xa@[k].1,
                    xb@[k].1,
                    p,
                    member_path(path, xa@[k].0@),
                ) is None by {
                    lemma_ordered_equal_has_no_diff(xa@[k].1, xb@[k].1, s, p, member_path(path, xa@[k].0@));
                }
                lemma_members_none(a, b, xa@, xb@, p, path, 0);
            },
            _ => {},
        },
        SemVal::List(xa) => match b {
            SemVal::List(xb) => {
                assert forall|k: int| 0 <= k < xa@.len() implies (#[trigger] first_diff_m(
                    xa@[k],
                    xb@[k],
                    p,
                    index_path(path, k),
                )) is None by {
                    lemma_ordered_equal_has_no_diff(xa@[k], xb@[k], s, p, index_path(path, k));
                }
                lemma_items_none(xa@, xb@, p, path, 0);
            },
            _ => {},
        },
        SemVal::MapPairs(xa) => match b {
            SemVal::MapPairs(xb) => {
                assert forall|k: int| 0 <= k < xa@.len() implies (#[trigger] first_diff_m(
                    xa@[k].0,
                    xb@[k].0,
                    p,
                    index_path(path, k) + ".key"@,
                )) is None && first_diff_m(xa@[k].1, xb@[k].1, p, index_path(path, k)) is None by {
                    lemma_ordered_equal_has_no_diff(xa@[k].0, xb@[k].0, s, p, index_path(path, k) + ".key"@);
                    lemma_ordered_equal_has_no_diff(xa@[k].1, xb@[k].1, s, p, index_path(path, k));
                }
                lemma_pairs_none(xa@, xb@, p, path, 0);
            },
            _ => {},
        },
        _ => {},
    }
}

/// The indices of `ys` that the elements `xs[i..]` take in turn (see
/// [`items_match_from`]), up to the first that finds none.
pub open spec fn item_picks(xs: Seq<SemVal>, ys: Seq<SemVal>, used: Seq<bool>, p: DiffPolicy, i: int) -> Seq<int>
    decreases xs.len() - i,
{
    if 0 <= i < xs.len() {
        match first_unused_match(xs[i], ys, used, p, 0) {
            Some(j) => seq![j] + item_picks(xs, ys, used.update(j, true), p, i + 1),
            None => Seq::empty(),
        }
    } else {
        Seq::empty()
    }
}

/// The indices of `ys` that the pairs `xs[i..]` take in turn (see
/// [`pairs_match_from`]), up to the first that finds none.
pub open spec fn pair_picks(
    xs: Seq<(SemVal, SemVal)>,
    ys: Seq<(SemVal, SemVal)>,
    used: Seq<bool>,
    p: DiffPolicy,
    i: int,
) -> Seq<int>
    decreases xs.len() - i,
{
    if 0 <= i < xs.len() {
        match first_unused_pair(xs[i], ys, used, p, 0) {
            Some(j) => seq![j] + pair_picks(xs, ys, used.update(j, true), p, i + 1),
            None => Seq::empty(),
        }
    } else {
        Seq::empty()
    }
}

/// Whether `f` pairs each element of `xs` with a distinct element of `ys`
/// equal to it under `p`, both lists having the same length.
pub open spec fn items_paired(xs: Seq<SemVal>, ys: Seq<SemVal>, f: Seq<int>, p: DiffPolicy) -> bool {
    &&& f.len() == xs.len()
    &&& xs.len() == ys.len()
    &&& forall|k: int| 0 <= k < f.len() ==> 0 <= #[trigger] f[k] < ys.len() && sem_eq_spec(xs[k], ys[f[k]], p)
    &&& forall|k: int, l: int| 0 <= k < l < f.len() ==> f[k] != f[l]
}

/// Whether `f` pairs each pair of `xs` with a distinct pair of `ys` whose
/// key and value equal its own under `p`, both maps having the same length.
pub open spec fn map_pairs_paired(xs: Seq<(SemVal, SemVal)>, ys: Seq<(SemVal, SemVal)>, f: Seq<int>, p: DiffPolicy) -> bool {
    &&& f.len() == xs.len()
    &&& xs.len() == ys.len()
    &&& forall|k: int|
        0 <= k < f.len() ==> 0 <= #[trigger] f[k] < ys.len() && sem_eq_spec(xs[k].0, ys[f[k]].0, p) && sem_eq_spec(
            xs[k].1,
            ys[f[k]].1,
            p,
        )
    &&& forall|k: int, l: int| 0 <= k < l < f.len() ==> f[k] != f[l]
}

proof fn lemma_first_unused_found(x: SemVal, ys: Seq<SemVal>, used: Seq<bool>, p: DiffPolicy, from: int)
    requires
        0 <= from,
    ensures
        first_unused_match(x, ys, used, p, from) matches Some(j) ==> from <= j < ys.len() && !used[j]
            && sem_eq_spec(x, ys[j], p),
    decreases ys.len() - from,
{
    if from < ys.len() {
        lemma_first_unused_found(x, ys, used, p, from + 1);
    }
}

proof fn lemma_first_unused_pair_found(
    x: (SemVal, SemVal),
    ys: Seq<(SemVal, SemVal)>,
    used: Seq<bool>,
    p: DiffPolicy,
    from: int,
)
    requires
        0 <= from,
    ensures
        first_unused_pair(x, ys, used, p, from) matches Some(j) ==> from <= j < ys.len() && !used[j]
            && sem_eq_spec(x.0, ys[j].0, p) && sem_eq_spec(x.1, ys[j].1, p),
    decreases ys.len() - from,
{
    if from < ys.len() {
        lemma_first_unused_pair_found(x, ys, used, p, from + 1);
    }
}

proof fn lemma_item_picks(xs: Seq<SemVal>, ys: Seq<SemVal>, used: Seq<bool>, p: DiffPolicy, i: int)
    requires
        0 <= i <= xs.len(),
        used.len() == ys.len(),
        items_match_from(xs, ys, used, p, i),
    ensures
        ({
            let f = item_picks(xs, ys, used, p, i);
            &&& f.len() == xs.len() - i
            &&& forall|k: int|
                0 <= k < f.len() ==> 0 <= #[trigger] f[k] < ys.len() && !used[f[k]] && sem_eq_spec(xs[i + k], ys[f[k]], p)
            &&& forall|k: int, l: int| 0 <= k < l < f.len() ==> f[k] != f[l]
        }),
    decreases xs.len() - i,
{
    if i < xs.len() {
        lemma_first_unused_found(xs[i], ys, used, p, 0);
        let j = first_unused_match(xs[i], ys, used, p, 0)->Some_0;
        let u2 = used.update(j, true);
        lemma_item_picks(xs, ys, u2, p, i + 1);
        let rest = item_picks(xs, ys, u2, p, i + 1);
        let f = item_picks(xs, ys, used, p, i);
        assert(f == seq![j] + rest);
        assert forall|k: int| 0 <= k < f.len() implies 0 <= #[trigger] f[k] < ys.len() && !used[f[k]] && sem_eq_spec(
            xs[i + k],
            ys[f[k]],
            p,
        ) by {
            if k > 0 {
                assert(f[k] == rest[k - 1]);
                assert(!u2[rest[k - 1]]);
            }
        }
        assert forall|k: int, l: int| 0 <= k < l < f.len() implies f[k] != f[l] by {
            assert(f[l] == rest[l - 1]);
            assert(!u2[rest[l - 1]]);
            if k > 0 {
                assert(f[k] == rest[k - 1]);
            }
        }
    }
}

proof fn lemma_pair_picks(xs: Seq<(SemVal, SemVal)>, ys: Seq<(SemVal, SemVal)>, used: Seq<bool>, p: DiffPolicy, i: int)
    requires
        0 <= i <= xs.len(),
        used.len() == ys.len(),
        pairs_match_from(xs, ys, used, p, i),
    ensures
        ({
            let f = pair_picks(xs, ys, used, p, i);
            &&& f.len() == xs.len() - i
            &&& forall|k: int|
                0 <= k < f.len() ==> 0 <= #[trigger] f[k] < ys.len() && !used[f[k]] && sem_eq_spec(xs[i + k].0, ys[f[k]].0, p)
                    && sem_eq_spec(xs[i + k].1, ys[f[k]].1, p)
            &&& forall|k: int, l: int| 0 <= k < l < f.len() ==> f[k] != f[l]
        }),
    decreases xs.len() - i,
{
    if i < xs.len() {
        lemma_first_unused_pair_found(xs[i], ys, used, p, 0);
        let j = first_unused_pair(xs[i], ys, used, p, 0)->Some_0;
        let u2 = used.update(j, true);
        lemma_pair_picks(xs, ys, u2, p, i + 1);
        let rest = pair_picks(xs, ys, u2, p, i + 1);
        let f = pair_picks(xs, ys, used, p, i);
        assert(f == seq![j] + rest);
        assert forall|k: int| 0 <= k < f.len() implies 0 <= #[trigger] f[k] < ys.len() && !used[f[k]] && sem_eq_spec(
            xs[i + k].0,
            ys[f[k]].0,
            p,
        ) && sem_eq_spec(xs[i + k].1, ys[f[k]].1, p) by {
            if k > 0 {
                assert(f[k] == rest[k - 1]);
                assert(!u2[rest[k - 1]]);
            }
        }
        assert forall|k: int, l: int| 0 <= k < l < f.len() implies f[k] != f[l] by {
            assert(f[l] == rest[l - 1]);
            assert(!u2[rest[l - 1]]);
            if k > 0 {
                assert(f[k] == rest[k - 1]);
            }
        }
    }
}

/// Lists equal under a policy that compares lists as multisets have the
/// same length, and each element of the one is paired with a distinct
/// element of the other that equals it.
pub proof fn lemma_unordered_lists_pair_up(xa: Vec<SemVal>, xb: Vec<SemVal>, p: DiffPolicy)
    requires
        p.unordered_lists,
        sem_eq_spec(SemVal::List(xa), SemVal::List(xb), p),
    ensures
        exists|f: Seq<int>| #[trigger] items_paired(xa@, xb@, f, p),
{
    lemma_item_picks(xa@, xb@, none_used(xb@.len()), p, 0);
    let f = item_picks(xa@, xb@, none_used(xb@.len()), p, 0);
    assert(items_paired(xa@, xb@, f, p));
}

/// Maps equal under a policy that compares maps as multisets have the same
/// length, and each pair of the one is paired with a distinct pair of the
/// other whose key and value equal its own.
pub proof fn lemma_unordered_maps_pair_up(xa: Vec<(SemVal, SemVal)>, xb: Vec<(SemVal, SemVal)>, p: DiffPolicy)
    requires
        p.unordered_maps,
        sem_eq_spec(SemVal::MapPairs(xa), SemVal::MapPairs(xb), p),
    ensures
        exists|f: Seq<int>| #[trigger] map_pairs_paired(xa@, xb@, f, p),
{
    lemma_pair_picks(xa@, xb@, none_used(xb@.len()), p, 0);
    let f = pair_picks(xa@, xb@, none_used(xb@.len()), p, 0);
    assert(map_pairs_paired(xa@, xb@, f, p));
}

/// Under a policy that keeps order everywhere, [`first_diff`] finds no
/// difference exactly where [`sem_eq`] holds, below any path.
pub proof fn lemma_first_diff_none_iff_equal(a: SemVal, b: SemVal, p: DiffPolicy, path: Seq<char>)
    requires
        !p.unordered_maps,
        !p.unordered_lists,
    ensures
        first_diff_m(a, b, p, path) is None <==> sem_eq_spec(a, b, p),
    decreases a, 1int,
{
    match a {
        SemVal::Struct(xa) => match b {
            SemVal::Struct(xb) => {
                if xa@.len() == xb@.len() {
                    lemma_members_diff_none(a, b, xa@, xb@, p, path, 0);
                }
            },
            _ => {},
        },
        SemVal::Variant(ta, xa) => match b {
            SemVal::Variant(tb, xb) => {
                if ta == tb && xa@.len() == xb@.len() {
                    lemma_members_diff_none(a, b, xa@, xb@, p, path, 0);
                }
            },
            _ => {},
        },
        SemVal::List(xa) => match b {
            SemVal::List(xb) => {
                if xa@.len() == xb@.len() {
                    lemma_items_diff_none(xa@, xb@, p, path, 0);
                }
            },
            _ => {},
        },
        SemVal::MapPairs(xa) => match b {
            SemVal::MapPairs(xb) => {
                if xa@.len() == xb@.len() {
                    lemma_pairs_diff_none(xa@, xb@, p, path, 0);
                }
            },
            _ => {},
        },
        _ => {},
    }
}

proof fn lemma_members_diff_none(
    a: SemVal,
    b: SemVal,
    xa: Seq<(&'static str, SemVal)>,
    xb: Seq<(&'static str, SemVal)>,
    p: DiffPolicy,
    path: Seq<char>,
    i: int,
)
    requires
        !p.unordered_maps,
        !p.unordered_lists,
        xa.len() == xb.len(),
        0 <= i <= xa.len(),
    ensures
        members_diff_from(a, b, xa, xb, p, path, i) is None <==> forall|k: int|
            i <= k < xa.len() ==> (#[trigger] xa[k]).0@ == xb[k].0@ && sem_eq_spec(xa[k].1, xb[k].1, p),
    decreases xa, xa.len() - i,
{
    if i < xa.len() {
        lemma_first_diff_none_iff_equal(xa[i].1, xb[i].1, p, member_path(path, xa[i].0@));
        lemma_members_diff_none(a, b, xa, xb, p, path, i + 1);
    }
}

proof fn lemma_items_diff_none(xa: Seq<SemVal>, xb: Seq<SemVal>, p: DiffPolicy, path: Seq<char>, i: int)
    requires
        !p.unordered_maps,
        !p.unordered_lists,
        xa.len() == xb.len(),
        0 <= i <= xa.len(),
    ensures
        items_diff_from(xa, xb, p, path, i) is None <==> forall|k: int|
            i <= k < xa.len() ==> sem_eq_spec(#[trigger] xa[k], xb[k], p),
    decreases xa, xa.len() - i,
{
    if i < xa.len() {
        lemma_first_diff_none_iff_equal(xa[i], xb[i], p, index_path(path, i));
        lemma_items_diff_none(xa, xb, p, path, i + 1);
    }
}

proof fn lemma_pairs_diff_none(
    xa: Seq<(SemVal, SemVal)>,
    xb: Seq<(SemVal, SemVal)>,
    p: DiffPolicy,
    path: Seq<char>,
    i: int,
)
    requires
        !p.unordered_maps,
        !p.unordered_lists,
        xa.len() == xb.len(),
        0 <= i <= xa.len(),
    ensures
        pairs_diff_from(xa, xb, p, path, i) is None <==> forall|k: int|
            i <= k < xa.len() ==> sem_eq_spec((#[trigger] xa[k]).0, xb[k].0, p) && sem_eq_spec(xa[k].1, xb[k].1, p),
    decreases xa, xa.len() - i,
{
    if i < xa.len() {
        lemma_first_diff_none_iff_equal(xa[i].0, xb[i].0, p, index_path(path, i) + ".key"@);
        lemma_first_diff_none_iff_equal(xa[i].1, xb[i].1, p, index_path(path, i));
        lemma_pairs_diff_none(xa, xb, p, path, i + 1);
    }
}

} // verus!
