//! The wire form of an ordered map with integer keys: a `u32` count, then
//! each key with its value, keys ascending.

use std::collections::BTreeMap;
use vstd::prelude::*;
use vstd::std_specs::iter::IteratorSpec;

use crate::bytes::{put_u32, splice, u32_le_bytes, UnexpectedEnd};
use crate::def::wire::{encode_items, lemma_encode_items_split, lemma_encode_one, ParseWireError, Wire};

verus! {

/// Whether the keys `s` ascend strictly.
pub open spec fn ascending(s: Seq<u32>) -> bool {
    forall|i: int, j: int| 0 <= i < j < s.len() ==> s[i] < s[j]
}

/// Integer keys are ordered as a map of them needs.
proof fn lemma_u32_keys_ordered()
    ensures
        vstd::std_specs::btree::key_obeys_cmp_spec::<u32>(),
        vstd::laws_cmp::obeys_cmp::<u32>(),
{
    broadcast use vstd::std_specs::btree::group_btree_axioms;
    broadcast use vstd::laws_cmp::group_laws_cmp;

}

/// An increasing sequence of integer keys ascends strictly.
proof fn lemma_increasing_keys(s: Seq<u32>)
    requires
        vstd::std_specs::btree::increasing_seq(s),
    ensures
        ascending(s),
{
    broadcast use vstd::std_specs::btree::group_btree_axioms;
    broadcast use vstd::laws_cmp::group_laws_cmp;

    assert(vstd::laws_cmp::obeys_cmp::<u32>());
    assert forall|i: int, j: int| 0 <= i < j < s.len() implies s[i] < s[j] by {
        assert(vstd::std_specs::cmp::OrdSpec::cmp_spec(&s[i], &s[j]) is Less);
    }
}

/// The keys of the pairs `ps`.
pub open spec fn keys_of<V>(ps: Seq<(u32, &V)>) -> Seq<u32> {
    ps.map_values(|p: (u32, &V)| p.0)
}

/// The pairs of `m` in ascending order of their keys.
fn pairs_in_order<V>(m: &BTreeMap<u32, V>) -> (r: Vec<(u32, &V)>)
    ensures
        ascending(keys_of(r@)),
        keys_of(r@).to_set() == m@.dom(),
        forall|i: int| 0 <= i < r@.len() ==> *(#[trigger] r@[i]).1 == m@[r@[i].0],
{
    broadcast use vstd::std_specs::btree::group_btree_axioms;

    proof {
        lemma_u32_keys_ordered();
    }
    let mut v: Vec<(u32, &V)> = Vec::new();
    let it = m.iter();
    let ghost rem = it.remaining();
    let ghost ks = rem.map_values(|kv: (&u32, &V)| *kv.0);
    proof {
        lemma_increasing_keys(ks);
        assert forall|x: u32| ks.to_set().contains(x) <==> m@.dom().contains(x) by {
            if ks.to_set().contains(x) {
                let i = choose|i: int| 0 <= i < ks.len() && ks[i] == x;
                assert(m@.contains_key(*rem[i].0));
            }
            if m@.dom().contains(x) {
                assert(rem.contains((&x, &m@[x])));
                let i = choose|i: int| 0 <= i < rem.len() && rem[i] == (&x, &m@[x]);
                assert(ks[i] == x);
            }
        }
        assert(ks.to_set() =~= m@.dom());
        assert forall|i: int| 0 <= i < rem.len() implies *(#[trigger] rem[i]).1 == m@[*rem[i].0] by {
            assert(m@.contains_key(*rem[i].0));
        }
    }
    for kv in iter: it
        invariant
            v@.len() == iter.index(),
            forall|i: int| 0 <= i < v@.len() ==> (#[trigger] v@[i]).0 == *iter.seq()[i].0 && v@[i].1 == iter.seq()[i].1,
            rem == iter.seq(),
    {
        v.push((*kv.0, kv.1));
    }
    assert(keys_of(v@) =~= ks);
    v
}

/// The keys of a finite set of integers, ascending.
pub open spec fn sorted_keys(d: Set<u32>) -> Seq<u32> {
    choose|s: Seq<u32>| ascending(s) && s.to_set() == d
}

/// The keys `s` with `x` put in its place.
pub open spec fn insert_sorted(s: Seq<u32>, x: u32) -> Seq<u32>
    decreases s.len(),
{
    if s.len() == 0 {
        seq![x]
    } else if x < s[0] {
        seq![x] + s
    } else {
        seq![s[0]] + insert_sorted(s.drop_first(), x)
    }
}

proof fn lemma_insert_sorted(s: Seq<u32>, x: u32)
    requires
        ascending(s),
        !s.contains(x),
    ensures
        ascending(insert_sorted(s, x)),
        insert_sorted(s, x).to_set() == s.to_set().insert(x),
        insert_sorted(s, x).len() == s.len() + 1,
        forall|y: u32| #[trigger] insert_sorted(s, x).contains(y) ==> y == x || s.contains(y),
    decreases s.len(),
{
    let r = insert_sorted(s, x);
    if s.len() == 0 {
        assert(r.to_set() =~= s.to_set().insert(x)) by {
            assert forall|y: u32| r.to_set().contains(y) <==> s.to_set().insert(x).contains(y) by {
                if r.to_set().contains(y) {
                    assert(r.contains(y));
                }
                if y == x {
                    assert(r[0] == x);
                }
            }
        }
    } else if x < s[0] {
        assert forall|i: int, j: int| 0 <= i < j < r.len() implies r[i] < r[j] by {
            if i > 0 {
                assert(r[i] == s[i - 1] && r[j] == s[j - 1]);
            } else {
                assert(r[j] == s[j - 1]);
                assert(s[0] <= s[j - 1]);
            }
        }
        assert forall|y: u32| r.to_set().contains(y) <==> s.to_set().insert(x).contains(y) by {
            if r.to_set().contains(y) {
                let i = choose|i: int| 0 <= i < r.len() && r[i] == y;
                if i > 0 {
                    assert(s[i - 1] == y);
                }
            }
            if s.to_set().contains(y) {
                let i = choose|i: int| 0 <= i < s.len() && s[i] == y;
                assert(r[i + 1] == y);
            }
            if y == x {
                assert(r[0] == x);
            }
        }
        assert(r.to_set() =~= s.to_set().insert(x));
        assert forall|y: u32| #[trigger] r.contains(y) implies y == x || s.contains(y) by {
            let i = choose|i: int| 0 <= i < r.len() && r[i] == y;
            if i > 0 {
                assert(s[i - 1] == y);
            }
        }
    } else {
        let t = s.drop_first();
        assert(ascending(t));
        assert(!t.contains(x)) by {
            if t.contains(x) {
                let i = choose|i: int| 0 <= i < t.len() && t[i] == x;
                assert(s[i + 1] == x);
            }
        }
        lemma_insert_sorted(t, x);
        let u = insert_sorted(t, x);
        assert(r == seq![s[0]] + u);
        assert(x != s[0]) by {
            assert(s.contains(s[0]));
        }
        assert forall|i: int, j: int| 0 <= i < j < r.len() implies r[i] < r[j] by {
            if i > 0 {
                assert(r[i] == u[i - 1] && r[j] == u[j - 1]);
            } else {
                assert(r[j] == u[j - 1]);
                assert(u.contains(u[j - 1]));
                if u[j - 1] != x {
                    let k = choose|k: int| 0 <= k < t.len() && t[k] == u[j - 1];
                    assert(s[k + 1] == u[j - 1]);
                }
            }
        }
        assert forall|y: u32| r.to_set().contains(y) <==> s.to_set().insert(x).contains(y) by {
            if r.to_set().contains(y) {
                let i = choose|i: int| 0 <= i < r.len() && r[i] == y;
                if i > 0 {
                    assert(u[i - 1] == y);
                    assert(u.to_set().contains(y));
                    if y != x {
                        assert(t.to_set().contains(y));
                        let k = choose|k: int| 0 <= k < t.len() && t[k] == y;
                        assert(s[k + 1] == y);
                    }
                }
            }
            if s.to_set().contains(y) {
                let i = choose|i: int| 0 <= i < s.len() && s[i] == y;
                if i > 0 {
                    assert(t[i - 1] == y);
                    assert(t.to_set().contains(y));
                    assert(u.to_set().contains(y));
                    let k = choose|k: int| 0 <= k < u.len() && u[k] == y;
                    assert(r[k + 1] == y);
                } else {
                    assert(r[0] == y);
                }
            }
            if y == x {
                assert(u.to_set().contains(x));
                let k = choose|k: int| 0 <= k < u.len() && u[k] == x;
                assert(r[k + 1] == x);
            }
        }
        assert(r.to_set() =~= s.to_set().insert(x));
        assert forall|y: u32| #[trigger] r.contains(y) implies y == x || s.contains(y) by {
            let i = choose|i: int| 0 <= i < r.len() && r[i] == y;
            if i > 0 {
                assert(u[i - 1] == y);
                assert(u.contains(y));
                if y != x {
                    let k = choose|k: int| 0 <= k < t.len() && t[k] == y;
                    assert(s[k + 1] == y);
                }
            } else {
                assert(s[0] == y);
            }
        }
    }
}

/// Every finite set of integer keys has them in ascending order.
proof fn lemma_sorted_keys(d: Set<u32>)
    requires
        d.finite(),
    ensures
        ascending(sorted_keys(d)),
        sorted_keys(d).to_set() == d,
        sorted_keys(d).len() == d.len(),
    decreases d.len(),
{
    if d.len() == 0 {
        let e = Seq::<u32>::empty();
        assert(e.to_set() =~= d);
        assert(ascending(e) && e.to_set() == d);
    } else {
        let x = d.choose();
        let d2 = d.remove(x);
        lemma_sorted_keys(d2);
        let s = sorted_keys(d2);
        assert(!s.contains(x)) by {
            if s.contains(x) {
                assert(s.to_set().contains(x));
            }
        }
        lemma_insert_sorted(s, x);
        assert(d2.insert(x) =~= d);
        assert(ascending(insert_sorted(s, x)) && insert_sorted(s, x).to_set() == d);
    }
    let k = sorted_keys(d);
    lemma_ascending_unique(k);
    k.unique_seq_to_set();
}

proof fn lemma_ascending_unique(s: Seq<u32>)
    requires
        ascending(s),
    ensures
        s.no_duplicates(),
{
    assert forall|i: int, j: int| 0 <= i < s.len() && 0 <= j < s.len() && i != j implies s[i] != s[j] by {
        if i < j {
            assert(s[i] < s[j]);
        } else {
            assert(s[j] < s[i]);
        }
    }
}

/// Two ascending key sequences with the same keys are the same.
proof fn lemma_ascending_same(a: Seq<u32>, b: Seq<u32>)
    requires
        ascending(a),
        ascending(b),
        a.to_set() == b.to_set(),
    ensures
        a == b,
    decreases a.len(),
{
    if a.len() == 0 {
        if b.len() > 0 {
            assert(b.to_set().contains(b[0]));
        }
        assert(a =~= b);
    } else {
        assert(a.to_set().contains(a[0]));
        assert(b.len() > 0);
        assert(b.to_set().contains(b[0]));
        let i = choose|i: int| 0 <= i < a.len() && a[i] == b[0];
        let j = choose|j: int| 0 <= j < b.len() && b[j] == a[0];
        if i > 0 {
            assert(a[0] < a[i]);
        }
        if j > 0 {
            assert(b[0] < b[j]);
        }
        assert(a[0] == b[0]);
        let a2 = a.drop_first();
        let b2 = b.drop_first();
        assert forall|y: u32| a2.to_set().contains(y) <==> b2.to_set().contains(y) by {
            if a2.to_set().contains(y) {
                let k = choose|k: int| 0 <= k < a2.len() && a2[k] == y;
                assert(a[k + 1] == y && a[0] < y);
                assert(a.to_set().contains(y));
                let l = choose|l: int| 0 <= l < b.len() && b[l] == y;
                assert(l > 0);
                assert(b2[l - 1] == y);
            }
            if b2.to_set().contains(y) {
                let k = choose|k: int| 0 <= k < b2.len() && b2[k] == y;
                assert(b[k + 1] == y && b[0] < y);
                assert(b.to_set().contains(y));
                let l = choose|l: int| 0 <= l < a.len() && a[l] == y;
                assert(l > 0);
                assert(a2[l - 1] == y);
            }
        }
        assert(a2.to_set() =~= b2.to_set());
        lemma_ascending_same(a2, b2);
        assert(a =~= seq![a[0]] + a2);
        assert(b =~= seq![b[0]] + b2);
    }
}

/// The map that the pairs `s` make, a later pair with a key overriding an
/// earlier one.
pub open spec fn map_of<V>(s: Seq<(u32, V)>) -> Map<u32, V>
    decreases s.len(),
{
    if s.len() == 0 {
        Map::empty()
    } else {
        map_of(s.drop_last()).insert(s.last().0, s.last().1)
    }
}

/// The pairs of `m`, keys ascending.
pub open spec fn pairs_of<V>(m: Map<u32, V>) -> Seq<(u32, V)> {
    sorted_keys(m.dom()).map_values(|k: u32| (k, m[k]))
}

proof fn lemma_map_of_pairs<V>(ks: Seq<u32>, m: Map<u32, V>)
    requires
        forall|i: int| 0 <= i < ks.len() ==> m.dom().contains(#[trigger] ks[i]),
    ensures
        map_of(ks.map_values(|k: u32| (k, m[k]))) == m.restrict(ks.to_set()),
    decreases ks.len(),
{
    let ps = ks.map_values(|k: u32| (k, m[k]));
    if ks.len() == 0 {
        assert(m.restrict(ks.to_set()) =~= Map::empty());
    } else {
        let k0 = ks.drop_last();
        lemma_map_of_pairs(k0, m);
        assert(ps.drop_last() =~= k0.map_values(|k: u32| (k, m[k])));
        assert(ks.to_set() =~= k0.to_set().insert(ks.last())) by {
            assert forall|y: u32| ks.to_set().contains(y) <==> k0.to_set().insert(ks.last()).contains(y) by {
                if ks.to_set().contains(y) {
                    let i = choose|i: int| 0 <= i < ks.len() && ks[i] == y;
                    if i < ks.len() - 1 {
                        assert(k0[i] == y);
                        assert(k0.to_set().contains(y));
                    }
                }
                if k0.to_set().contains(y) {
                    let i = choose|i: int| 0 <= i < k0.len() && k0[i] == y;
                    assert(ks[i] == y);
                }
                if y == ks.last() {
                    assert(ks[ks.len() - 1] == y);
                }
            }
        }
        assert(map_of(ps) =~= m.restrict(ks.to_set()));
    }
}

/// A `u32` count, then each key with its value, keys ascending; reading
/// gives the map that the pairs make, a later pair overriding an earlier
/// one with the same key.
impl<V: Wire> Wire for BTreeMap<u32, V> {
    type Model = Map<u32, V::Model>;

    open spec fn model(&self) -> Map<u32, V::Model> {
        self@.map_values(|v: V| v.model())
    }

    open spec fn encode(m: Map<u32, V::Model>) -> Seq<u8> {
        <Vec<(u32, V)> as Wire>::encode(pairs_of(m))
    }

    open spec fn decode(b: Seq<u8>) -> (Result<Map<u32, V::Model>, ParseWireError>, int) {
        let (r, n) = <Vec<(u32, V)> as Wire>::decode(b);
        match r {
            Ok(s) => (Ok(map_of(s)), n),
            Err(e) => (Err(e), n),
        }
    }

    open spec fn encodable(m: Map<u32, V::Model>) -> bool {
        &&& m.dom().finite()
        &&& m.dom().len() <= u32::MAX
        &&& forall|k: u32| m.dom().contains(k) ==> V::encodable(#[trigger] m[k])
    }

    fn parse(cur: &mut &[u8]) -> (r: Result<BTreeMap<u32, V>, ParseWireError>) {
        broadcast use vstd::std_specs::btree::group_btree_axioms;
        broadcast use vstd::std_specs::vec::group_vec_axioms;

        let pairs = match <Vec<(u32, V)> as Wire>::parse(cur) {
            Ok(p) => p,
            Err(e) => {
                return Err(e);
            },
        };
        proof {
            lemma_u32_keys_ordered();
        }
        let ghost pm = pairs.model();
        let ghost pv = pairs@;
        let mut m: BTreeMap<u32, V> = BTreeMap::new();
        proof {
            assert(m.model() =~= map_of(pm.take(0)));
        }
        for p in it: pairs.into_iter()
            invariant
                pv == it.seq(),
                pm == pv.map_values(|x: (u32, V)| x.model()),
                m.model() == map_of(pm.take(it.index() as int)),
        {
            let ghost j = it.index() as int;
            let ghost before = m@;
            m.insert(p.0, p.1);
            proof {
                assert(pm.take(j + 1).drop_last() =~= pm.take(j));
                assert(pm.take(j + 1).last() == (p.0, p.1.model()));
                assert(m.model() =~= before.map_values(|v: V| v.model()).insert(p.0, p.1.model()));
            }
        }
        proof {
            assert(pm.take(pm.len() as int) =~= pm);
        }
        Ok(m)
    }

    fn serialize(&self, out: &mut Vec<u8>, pos: &mut usize) -> (r: Result<(), UnexpectedEnd>) {
        let ghost m = self.model();
        let ghost d = out@;
        let ghost p = *pos as int;
        let ps = pairs_in_order(self);
        let ghost ks = keys_of(ps@);
        proof {
            lemma_sorted_keys(m.dom());
            assert(m.dom() =~= self@.dom());
            lemma_ascending_same(ks, sorted_keys(m.dom()));
        }
        let ghost pm = pairs_of(m);
        assert(pm.len() == ps@.len());
        proof {
            lemma_encode_items_split::<(u32, V)>(pm, 0);
        }
        let n = ps.len();
        match put_u32(out, pos, n as u32) {
            Ok(()) => {},
            Err(e) => {
                return Err(e);
            },
        }
        let mut i: usize = 0;
        proof {
            assert(pm.take(0) =~= Seq::<(u32, V::Model)>::empty());
            assert(u32_le_bytes(n as u32) + encode_items::<(u32, V)>(pm.take(0)) =~= u32_le_bytes(n as u32));
        }
        while i < n
            invariant
                m == self.model(),
                pm == pairs_of(m),
                n == ps@.len(),
                pm.len() == n,
                ks == keys_of(ps@),
                ks == sorted_keys(m.dom()),
                ks.to_set() == m.dom(),
                m.dom() == self@.dom(),
                forall|k: int| 0 <= k < ps@.len() ==> *(#[trigger] ps@[k]).1 == self@[ps@[k].0],
                i <= n,
                d == old(out)@,
                p == *old(pos),
                p + 4 <= d.len(),
                out@.len() == d.len(),
                *pos == p + 4 + encode_items::<(u32, V)>(pm.take(i as int)).len(),
                *pos <= out@.len(),
                out@ == splice(d, p, u32_le_bytes(n as u32) + encode_items::<(u32, V)>(pm.take(i as int))),
                encode_items::<(u32, V)>(pm) == encode_items::<(u32, V)>(pm.take(i as int)) + encode_items::<
                    (u32, V),
                >(pm.skip(i as int)),
            decreases n - i,
        {
            let ghost j = i as int;
            proof {
                lemma_encode_items_split::<(u32, V)>(pm.skip(j), 1);
                assert(pm.skip(j).take(1) =~= seq![pm[j]]);
                lemma_encode_one::<(u32, V)>(pm[j]);
                assert(pm.skip(j).skip(1) =~= pm.skip(j + 1));
                assert(ks[j] == ps@[j].0);
                assert(ks.to_set().contains(ks[j]));
                assert(m[ks[j]] == self@[ks[j]].model());
                assert(pm[j] == (ps@[j].0, ps@[j].1.model()));
            }
            let (k, v) = ps[i];
            let ghost mid_out = out@;
            let ghost mid_pos = *pos as int;
            match put_u32(out, pos, k) {
                Ok(()) => {},
                Err(e) => {
                    return Err(e);
                },
            }
            match v.serialize(out, pos) {
                Ok(()) => {},
                Err(e) => {
                    return Err(e);
                },
            }
            i += 1;
            proof {
                assert(pm.take(i as int).drop_last() =~= pm.take(j));
                assert(pm.take(i as int).last() == pm[j]);
                lemma_encode_items_split::<(u32, V)>(pm, i as int);
                assert(out@ =~= splice(d, p, u32_le_bytes(n as u32) + encode_items::<(u32, V)>(pm.take(i as int))));
            }
        }
        proof {
            assert(pm.take(n as int) =~= pm);
        }
        Ok(())
    }

    fn wire_size(&self) -> (r: usize) {
        let ghost m = self.model();
        let ps = pairs_in_order(self);
        let ghost ks = keys_of(ps@);
        proof {
            lemma_sorted_keys(m.dom());
            assert(m.dom() =~= self@.dom());
            lemma_ascending_same(ks, sorted_keys(m.dom()));
        }
        let ghost pm = pairs_of(m);
        let mut total: usize = 4;
        let mut i: usize = 0;
        proof {
            assert(pm.take(0) =~= Seq::<(u32, V::Model)>::empty());
        }
        while i < ps.len()
            invariant
                pm == pairs_of(m),
                m == self.model(),
                pm.len() == ps@.len(),
                ks == keys_of(ps@),
                ks == sorted_keys(m.dom()),
                ks.to_set() == m.dom(),
                m.dom() == self@.dom(),
                forall|k: int| 0 <= k < ps@.len() ==> *(#[trigger] ps@[k]).1 == self@[ps@[k].0],
                i <= ps@.len(),
                4 + encode_items::<(u32, V)>(pm).len() <= usize::MAX,
                total == 4 + encode_items::<(u32, V)>(pm.take(i as int)).len(),
            decreases ps@.len() - i,
        {
            let ghost j = i as int;
            proof {
                lemma_encode_items_split::<(u32, V)>(pm, j + 1);
                assert(pm.take(j + 1).drop_last() =~= pm.take(j));
                assert(ks[j] == ps@[j].0);
                assert(ks.to_set().contains(ks[j]));
                assert(m[ks[j]] == self@[ks[j]].model());
                assert(pm[j] == (ps@[j].0, ps@[j].1.model()));
            }
            let n = ps[i].1.wire_size();
            total = total + 4 + n;
            i += 1;
        }
        proof {
            assert(pm.take(ps@.len() as int) =~= pm);
        }
        total
    }

    proof fn lemma_decode_len(b: Seq<u8>) {
        <Vec<(u32, V)> as Wire>::lemma_decode_len(b);
    }

    proof fn lemma_round_trip(m: Map<u32, V::Model>, rest: Seq<u8>) {
        lemma_sorted_keys(m.dom());
        let ks = sorted_keys(m.dom());
        let pm = pairs_of(m);
        assert forall|i: int| 0 <= i < pm.len() implies <(u32, V) as Wire>::encodable(#[trigger] pm[i]) by {
            assert(ks.to_set().contains(ks[i]));
        }
        <Vec<(u32, V)> as Wire>::lemma_round_trip(pm, rest);
        assert forall|i: int| 0 <= i < ks.len() implies m.dom().contains(#[trigger] ks[i]) by {
            assert(ks.to_set().contains(ks[i]));
        }
        lemma_map_of_pairs(ks, m);
        assert(m.restrict(ks.to_set()) =~= m);
    }
}

} // verus!
