//! Lists of announced addresses.
//!
//! On the wire a list is the number of its addresses as two big-endian
//! bytes, followed by the wire forms of the addresses in the order of the
//! list.

use crate::codec::{be16, from_be16, lemma_from_be16_round_trip, read_be16, write_be16, Error};
use crate::node_addr::{
    lemma_wire_decoding_canonical, lemma_wire_round_trip, wire_decoding, AnnouncedNodeAddr,
    NodeAddrModel,
};
use vstd::prelude::*;
use vstd::slice::slice_subrange;

verus! {

/// Largest number of addresses that the count in front of a list can state.
pub const MAX_COUNT: usize = 0xFFFF;

/// An ordered list of announced addresses. The order is part of the value.
#[derive(Clone, Debug, Hash, PartialEq, Eq)]
pub struct AddressList(pub Vec<AnnouncedNodeAddr>);

/// The models of a sequence of addresses, in the same order.
pub open spec fn models(v: Seq<AnnouncedNodeAddr>) -> Seq<NodeAddrModel> {
    v.map_values(|a: AnnouncedNodeAddr| a@)
}

impl View for AddressList {
    type V = Seq<NodeAddrModel>;

    open spec fn view(&self) -> Seq<NodeAddrModel> {
        models(self.0@)
    }
}

impl Default for AddressList {
    /// The empty list.
    fn default() -> (list: Self)
        ensures
            list@ == Seq::<NodeAddrModel>::empty(),
    {
        let list = AddressList(Vec::new());
        list
    }
}

/// Every address of the list has a wire form.
pub open spec fn all_encodable(l: Seq<NodeAddrModel>) -> bool {
    forall|i: int| 0 <= i < l.len() ==> (#[trigger] l[i]).wire_encodable()
}

/// The count that is written in front of a list of `n` addresses: `n`
/// itself while it fits two bytes, else its two low bytes.
pub open spec fn count_field(n: nat) -> u16 {
    (n % 0x1_0000) as u16
}

/// The bytes that encoding writes after the count: the wire forms of the
/// addresses in order, up to and with the first address that has no wire
/// form, of which only the part in front of the missing field is written.
pub open spec fn body_bytes(l: Seq<NodeAddrModel>) -> Seq<u8>
    decreases l.len(),
{
    if l.len() == 0 {
        Seq::empty()
    } else if !l[0].wire_encodable() {
        l[0].wire_bytes()
    } else {
        l[0].wire_bytes() + body_bytes(l.drop_first())
    }
}

/// The bytes that encoding a list appends to the buffer: the count and the
/// body.
pub open spec fn list_wire_bytes(l: Seq<NodeAddrModel>) -> Seq<u8> {
    be16(count_field(l.len())) + body_bytes(l)
}

/// `acc` in front of what `r` holds, or the failure that `r` is.
pub open spec fn prepend(acc: Seq<NodeAddrModel>, r: Result<Seq<NodeAddrModel>, Error>) -> Result<
    Seq<NodeAddrModel>,
    Error,
> {
    match r {
        Ok(t) => Ok(acc + t),
        Err(e) => Err(e),
    }
}

/// Nothing in front of a result is the result.
pub proof fn lemma_prepend_nothing(r: Result<Seq<NodeAddrModel>, Error>)
    ensures
        prepend(Seq::empty(), r) == r,
        r is Ok ==> prepend(r->Ok_0, Ok(Seq::empty())) == r,
{
    if let Ok(t) = r {
        assert(Seq::<NodeAddrModel>::empty() + t =~= t);
        assert(t + Seq::<NodeAddrModel>::empty() =~= t);
    }
}

/// To put `acc` in front of `x` and what follows is to put `acc` with `x`
/// at its end in front of what follows.
pub proof fn lemma_prepend_one(
    acc: Seq<NodeAddrModel>,
    x: NodeAddrModel,
    r: Result<Seq<NodeAddrModel>, Error>,
)
    ensures
        prepend(acc, prepend(seq![x], r)) == prepend(acc.push(x), r),
{
    if let Ok(t) = r {
        assert(acc + (seq![x] + t) =~= acc.push(x) + t);
    }
}

/// The `n` addresses that a decoder reads one after the other from the
/// front of `s`, or the failure of the first address that cannot be read.
pub open spec fn body_decoding(s: Seq<u8>, n: nat) -> Result<Seq<NodeAddrModel>, Error>
    decreases n,
{
    if n == 0 {
        Ok(Seq::empty())
    } else {
        match wire_decoding(s) {
            Err(e) => Err(e),
            Ok(m) => prepend(
                seq![m],
                body_decoding(s.subrange(m.wire_len() as int, s.len() as int), (n - 1) as nat),
            ),
        }
    }
}

/// The list that a decoder reads from the front of `s`, or the failure it
/// meets: the input ends before the count is complete, or one of the
/// addresses that the count announces cannot be read.
pub open spec fn list_wire_decoding(s: Seq<u8>) -> Result<Seq<NodeAddrModel>, Error> {
    if s.len() < 2 {
        Err(Error::InsufficientData)
    } else {
        body_decoding(s.subrange(2, s.len() as int), from_be16(s.subrange(0, 2)) as nat)
    }
}

/// Where every address of a list has a wire form, so has every address of
/// the list without its first.
pub proof fn lemma_tail_encodable(l: Seq<NodeAddrModel>)
    requires
        l.len() > 0,
        all_encodable(l),
    ensures
        all_encodable(l.drop_first()),
{
    assert forall|i: int| 0 <= i < l.drop_first().len() implies (#[trigger] l.drop_first()[i])
        .wire_encodable() by {
        assert(l.drop_first()[i] == l[i + 1]);
    }
}

/// Where every address of a list has a wire form, and one more address has
/// one, so has every address of the list with that address at its end.
pub proof fn lemma_push_encodable(p: Seq<NodeAddrModel>, x: NodeAddrModel)
    requires
        all_encodable(p),
        x.wire_encodable(),
    ensures
        all_encodable(p.push(x)),
{
    assert forall|i: int| 0 <= i < p.push(x).len() implies (#[trigger] p.push(x)[i])
        .wire_encodable() by {
        if i < p.len() {
            assert(p.push(x)[i] == p[i]);
        }
    }
}

/// After addresses that all have a wire form, one more address adds the
/// bytes that encoding it writes.
pub proof fn lemma_body_push(p: Seq<NodeAddrModel>, x: NodeAddrModel)
    requires
        all_encodable(p),
    ensures
        body_bytes(p.push(x)) == body_bytes(p) + x.wire_bytes(),
    decreases p.len(),
{
    let q = p.push(x);
    if p.len() == 0 {
        assert(q.drop_first() =~= Seq::<NodeAddrModel>::empty());
        assert(body_bytes(q.drop_first()) =~= Seq::<u8>::empty());
    } else {
        assert(q[0] == p[0]);
        assert(q.drop_first() =~= p.drop_first().push(x));
        lemma_tail_encodable(p);
        lemma_body_push(p.drop_first(), x);
    }
    assert(body_bytes(q) =~= body_bytes(p) + x.wire_bytes());
}

/// Nothing is written after the first address that has no wire form.
pub proof fn lemma_body_stops(l: Seq<NodeAddrModel>, i: int)
    requires
        0 <= i < l.len(),
        all_encodable(l.take(i)),
        !l[i].wire_encodable(),
    ensures
        body_bytes(l) == body_bytes(l.take(i)) + l[i].wire_bytes(),
    decreases i,
{
    if i == 0 {
        assert(l.take(0) =~= Seq::<NodeAddrModel>::empty());
    } else {
        let t = l.drop_first();
        assert(t.take(i - 1) =~= l.take(i).drop_first());
        lemma_tail_encodable(l.take(i));
        lemma_body_stops(t, i - 1);
        assert(l.take(i)[0] == l[0]);
    }
}

impl AddressList {
    /// Appends the wire form of the list to `e` and returns the number of
    /// bytes written. Where an address has no wire form, the call fails
    /// with `DataIntegrityError` after writing what stands in front of the
    /// missing field.
    pub fn lightning_encode(&self, e: &mut Vec<u8>) -> (r: Result<usize, Error>)
        ensures
            final(e)@ == old(e)@ + list_wire_bytes(self@),
            r == if all_encodable(self@) {
                Ok::<usize, Error>(list_wire_bytes(self@).len() as usize)
            } else {
                Err::<usize, Error>(Error::DataIntegrityError)
            },
    {
        let n = self.0.len();
        let start_len = e.len();
        let ghost start = e@;
        write_be16(e, (n % 0x1_0000) as u16);
        let mut i: usize = 0;
        while i < n
            invariant
                i <= n,
                start == old(e)@,
                start_len == start.len(),
                n == self.0@.len(),
                self@.len() == n,
                all_encodable(self@.take(i as int)),
                e@ == start + be16(count_field(n as nat)) + body_bytes(self@.take(i as int)),
            decreases n - i,
        {
            let step = self.0[i].lightning_encode(e);
            proof {
                let p = self@.take(i as int);
                lemma_body_push(p, self@[i as int]);
                assert(self@.take(i + 1) =~= p.push(self@[i as int]));
            }
            if let Err(err) = step {
                proof {
                    lemma_body_stops(self@, i as int);
                }
                return Err(err);
            }
            proof {
                lemma_push_encodable(self@.take(i as int), self@[i as int]);
            }
            i = i + 1;
        }
        proof {
            assert(self@.take(n as int) =~= self@);
        }
        Ok(e.len() - start_len)
    }

    /// The wire form of the list.
    pub fn lightning_serialize(&self) -> (bytes: Vec<u8>)
        requires
            all_encodable(self@),
        ensures
            bytes@ == list_wire_bytes(self@),
    {
        let mut encoder: Vec<u8> = Vec::new();
        let _ = self.lightning_encode(&mut encoder);
        encoder
    }

    /// Reads a list from the front of `d` and says how many bytes it took.
    fn decode_prefix(d: &[u8]) -> (r: Result<(Self, usize), Error>)
        ensures
            match r {
                Ok((list, used)) => {
                    &&& list_wire_decoding(d@) == Ok::<Seq<NodeAddrModel>, Error>(list@)
                    &&& all_encodable(list@)
                    &&& list@.len() <= MAX_COUNT
                    &&& used <= d@.len()
                    &&& d@.subrange(0, used as int) == list_wire_bytes(list@)
                },
                Err(e) => list_wire_decoding(d@) == Err::<Seq<NodeAddrModel>, Error>(e),
            },
    {
        let count = match read_be16(d, 0) {
            Ok(c) => c as usize,
            Err(e) => {
                return Err(e);
            },
        };
        let len = d.len();
        let ghost body = d@.subrange(2, len as int);
        let mut data: Vec<AnnouncedNodeAddr> = Vec::with_capacity(count);
        let mut pos: usize = 2;
        let mut i: usize = 0;
        proof {
            assert(models(data@) =~= Seq::<NodeAddrModel>::empty());
            lemma_prepend_nothing(body_decoding(body, count as nat));
        }
        while i < count
            invariant
                i <= count <= MAX_COUNT,
                2 <= pos <= len,
                len == d@.len(),
                body == d@.subrange(2, len as int),
                count == from_be16(d@.subrange(0, 2)),
                data@.len() == i,
                all_encodable(models(data@)),
                d@.subrange(2, pos as int) == body_bytes(models(data@)),
                body_decoding(body, count as nat) == prepend(
                    models(data@),
                    body_decoding(d@.subrange(pos as int, len as int), (count - i) as nat),
                ),
            decreases count - i,
        {
            let rest = slice_subrange(d, pos, len);
            let ghost acc = models(data@);
            let ghost tail = body_decoding(
                rest@.subrange(
                    match wire_decoding(rest@) {
                        Ok(m) => m.wire_len() as int,
                        Err(_) => 0,
                    },
                    rest@.len() as int,
                ),
                (count - i - 1) as nat,
            );
            match AnnouncedNodeAddr::lightning_decode(rest) {
                Ok(a) => {
                    let used = a.wire_len();
                    proof {
                        lemma_wire_decoding_canonical(rest@);
                        lemma_body_push(acc, a@);
                        assert(rest@.subrange(used as int, rest@.len() as int) =~= d@.subrange(
                            pos + used,
                            len as int,
                        ));
                        lemma_push_encodable(acc, a@);
                        lemma_prepend_one(acc, a@, tail);
                    }
                    data.push(a);
                    pos = pos + used;
                    proof {
                        assert(models(data@) =~= acc.push(a@));
                    }
                },
                Err(e) => {
                    return Err(e);
                },
            }
            i = i + 1;
        }
        proof {
            lemma_prepend_nothing(Ok(models(data@)));
            lemma_from_be16_round_trip(d@.subrange(0, 2));
        }
        Ok((AddressList(data), pos))
    }

    /// Reads a list from the front of `d`. Bytes after it are left unread.
    pub fn lightning_decode(d: &[u8]) -> (r: Result<Self, Error>)
        ensures
            match r {
                Ok(list) => list_wire_decoding(d@) == Ok::<Seq<NodeAddrModel>, Error>(list@),
                Err(e) => list_wire_decoding(d@) == Err::<Seq<NodeAddrModel>, Error>(e),
            },
    {
        match Self::decode_prefix(d) {
            Ok((list, _)) => Ok(list),
            Err(e) => Err(e),
        }
    }

    /// Reads a list that takes up the whole of `data`.
    pub fn lightning_deserialize(data: &[u8]) -> (r: Result<Self, Error>)
        ensures
            match r {
                Ok(list) => list_wire_decoding(data@) == Ok::<Seq<NodeAddrModel>, Error>(list@)
                    && data@ == list_wire_bytes(list@),
                Err(e) => match list_wire_decoding(data@) {
                    Ok(l) => e == Error::DataNotEntirelyConsumed && data@.len()
                        != list_wire_bytes(l).len(),
                    Err(f) => e == f,
                },
            },
    {
        match Self::decode_prefix(data) {
            Ok((list, used)) => {
                if used == data.len() {
                    Ok(list)
                } else {
                    Err(Error::DataNotEntirelyConsumed)
                }
            },
            Err(e) => Err(e),
        }
    }
}

/// Decoding the wire form of a list gives the list back: the same addresses
/// in the same order and number, whatever bytes follow the wire form. This
/// holds of every list of at most 65535 addresses that all have a wire
/// form, the empty list among them, whose wire form is the two bytes of a
/// zero count.
pub proof fn lemma_list_round_trip(list: AddressList, rest: Seq<u8>)
    requires
        all_encodable(list@),
        list@.len() <= MAX_COUNT,
    ensures
        list_wire_decoding(list_wire_bytes(list@) + rest) == Ok::<Seq<NodeAddrModel>, Error>(
            list@,
        ),
        list@.len() == 0 ==> list_wire_bytes(list@) == seq![0u8, 0u8],
{
    let s = list_wire_bytes(list@) + rest;
    assert(s.subrange(0, 2) =~= be16(count_field(list@.len())));
    assert(s.subrange(2, s.len() as int) =~= body_bytes(list@) + rest);
    lemma_body_round_trip(list.0@, rest);
}

/// Decoding as many addresses as were encoded gives them back in order.
pub proof fn lemma_body_round_trip(v: Seq<AnnouncedNodeAddr>, rest: Seq<u8>)
    requires
        all_encodable(models(v)),
    ensures
        body_decoding(body_bytes(models(v)) + rest, v.len()) == Ok::<Seq<NodeAddrModel>, Error>(
            models(v),
        ),
    decreases v.len(),
{
    let l = models(v);
    if v.len() == 0 {
        assert(l =~= Seq::<NodeAddrModel>::empty());
    } else {
        let a = v[0];
        let t = v.drop_first();
        assert(models(t) =~= l.drop_first());
        lemma_tail_encodable(l);
        let s = body_bytes(l) + rest;
        let after = body_bytes(models(t)) + rest;
        assert(s =~= a@.wire_bytes() + after);
        lemma_wire_round_trip(a, after);
        assert(s.subrange(a@.wire_len() as int, s.len() as int) =~= after);
        lemma_body_round_trip(t, rest);
        assert(seq![a@] + models(t) =~= l);
    }
}

} // verus!
