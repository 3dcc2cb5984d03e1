//! The wire form of a fixed-size array: its values one after the other,
//! with no count.

use vstd::prelude::*;

use crate::bytes::{splice, UnexpectedEnd};
use crate::def::wire::{
    decode_items, encode_items, lemma_decode_items_len, lemma_decode_items_round_trip, lemma_decode_items_stays,
    lemma_encode_items_split, lemma_encode_one, ParseWireError, Wire,
};

verus! {

/// `<[T; N]>::try_from(Vec<T>)`: the vector's elements as an array, where
/// it holds exactly `N` of them.
#[verifier::external_body]
fn vec_into_array<T, const N: usize>(v: Vec<T>) -> (r: Option<[T; N]>)
    ensures
        r is Some <==> v@.len() == N,
        r is Some ==> r->Some_0@ == v@,
{
    match <[T; N]>::try_from(v) {
        Ok(a) => Some(a),
        Err(_) => None,
    }
}

/// `N` values one after the other, with no count.
impl<T: Wire, const N: usize> Wire for [T; N] {
    type Model = Seq<T::Model>;

    open spec fn model(&self) -> Seq<T::Model> {
        self@.map_values(|x: T| x.model())
    }

    open spec fn encode(m: Seq<T::Model>) -> Seq<u8> {
        encode_items::<T>(m)
    }

    open spec fn decode(b: Seq<u8>) -> (Result<Seq<T::Model>, ParseWireError>, int) {
        decode_items::<T>(b, 0, N as nat)
    }

    open spec fn encodable(m: Seq<T::Model>) -> bool {
        &&& m.len() == N
        &&& forall|i: int| 0 <= i < m.len() ==> T::encodable(#[trigger] m[i])
    }

    fn parse(cur: &mut &[u8]) -> (r: Result<[T; N], ParseWireError>) {
        let ghost b = cur@;
        let mut items: Vec<T> = Vec::new();
        let mut i: usize = 0;
        proof {
            assert(items@.map_values(|x: T| x.model()) =~= Seq::<T::Model>::empty());
            assert(b.skip(0) =~= b);
        }
        while i < N
            invariant
                b == old(cur)@,
                i <= N,
                items@.len() == i,
                0 <= decode_items::<T>(b, 0, i as nat).1 <= b.len(),
                cur@ == b.skip(decode_items::<T>(b, 0, i as nat).1),
                decode_items::<T>(b, 0, i as nat).0 == Ok::<Seq<T::Model>, ParseWireError>(
                    items@.map_values(|x: T| x.model()),
                ),
            decreases N - i,
        {
            let ghost q = decode_items::<T>(b, 0, i as nat).1;
            proof {
                T::lemma_decode_len(b.skip(q));
            }
            let x = match T::parse(cur) {
                Ok(x) => x,
                Err(e) => {
                    proof {
                        lemma_decode_items_stays::<T>(b, 0, (i + 1) as nat, N as nat);
                    }
                    assert(cur@ =~= b.skip(decode_items::<T>(b, 0, (i + 1) as nat).1));
                    return Err(ParseWireError::Item { index: i, inner: Box::new(e) });
                },
            };
            let ghost before = items@;
            items.push(x);
            i += 1;
            proof {
                assert(items@.map_values(|x: T| x.model()) =~= before.map_values(|x: T| x.model()).push(x.model()));
                assert(cur@ =~= b.skip(decode_items::<T>(b, 0, i as nat).1));
            }
        }
        let ghost iv = items@;
        match vec_into_array(items) {
            Some(a) => {
                assert(a@.map_values(|x: T| x.model()) == iv.map_values(|x: T| x.model()));
                Ok(a)
            },
            None => {
                assert(false);
                Err(ParseWireError::UnexpectedEnd)
            },
        }
    }

    fn serialize(&self, out: &mut Vec<u8>, pos: &mut usize) -> (r: Result<(), UnexpectedEnd>) {
        broadcast use vstd::array::array_len_matches_n;

        let ghost m = self.model();
        let ghost d = out@;
        let ghost p = *pos as int;
        let mut i: usize = 0;
        proof {
            assert(m.take(0) =~= Seq::<T::Model>::empty());
            lemma_encode_items_split::<T>(m, 0);
            assert(d =~= splice(d, p, encode_items::<T>(m.take(0))));
        }
        while i < N
            invariant
                m == self.model(),
                m.len() == N,
                self@.len() == N,
                i <= N,
                d == old(out)@,
                p == *old(pos),
                p <= d.len(),
                out@.len() == d.len(),
                *pos == p + encode_items::<T>(m.take(i as int)).len(),
                *pos <= out@.len(),
                out@ == splice(d, p, encode_items::<T>(m.take(i as int))),
                encode_items::<T>(m) == encode_items::<T>(m.take(i as int)) + encode_items::<T>(m.skip(i as int)),
            decreases N - i,
        {
            let ghost j = i as int;
            proof {
                lemma_encode_items_split::<T>(m.skip(j), 1);
                assert(m.skip(j).take(1) =~= seq![m[j]]);
                lemma_encode_one::<T>(m[j]);
                assert(m.skip(j).skip(1) =~= m.skip(j + 1));
                assert(m[j] == self@[j].model());
            }
            match self[i].serialize(out, pos) {
                Ok(()) => {},
                Err(e) => {
                    return Err(e);
                },
            }
            i += 1;
            proof {
                assert(m.take(i as int).drop_last() =~= m.take(j));
                assert(m.take(i as int).last() == m[j]);
                lemma_encode_items_split::<T>(m, i as int);
                assert(out@ =~= splice(d, p, encode_items::<T>(m.take(i as int))));
            }
        }
        proof {
            assert(m.take(N as int) =~= m);
        }
        Ok(())
    }

    fn wire_size(&self) -> (r: usize) {
        broadcast use vstd::array::array_len_matches_n;

        let ghost m = self.model();
        let mut total: usize = 0;
        let mut i: usize = 0;
        proof {
            assert(m.take(0) =~= Seq::<T::Model>::empty());
        }
        while i < N
            invariant
                m == self.model(),
                m.len() == N,
                self@.len() == N,
                i <= N,
                encode_items::<T>(m).len() <= usize::MAX,
                total == encode_items::<T>(m.take(i as int)).len(),
            decreases N - i,
        {
            let ghost j = i as int;
            proof {
                lemma_encode_items_split::<T>(m, j + 1);
                assert(m.take(j + 1).drop_last() =~= m.take(j));
                assert(m[j] == self@[j].model());
            }
            let n = self[i].wire_size();
            total = total + n;
            i += 1;
        }
        proof {
            assert(m.take(N as int) =~= m);
        }
        total
    }

    proof fn lemma_decode_len(b: Seq<u8>) {
        lemma_decode_items_len::<T>(b, 0, N as nat);
    }

    proof fn lemma_round_trip(m: Seq<T::Model>, rest: Seq<u8>) {
        let head = Seq::<u8>::empty();
        lemma_decode_items_round_trip::<T>(m, head, rest, N as nat);
        assert(m.take(N as int) =~= m);
        assert(head + encode_items::<T>(m) + rest =~= encode_items::<T>(m) + rest);
    }
}

} // verus!
