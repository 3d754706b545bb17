//! Short channel ids: where on the chain the funding output of a channel
//! stands.
//!
//! A short channel id names a block by its height, a transaction by its
//! index in the block and an output by its index in the transaction. Height
//! and transaction index have 24 bits each, the output index has 16: packed
//! big-endian with no padding they take eight bytes.

use crate::codec::{
    be16, be24, from_be16, from_be24, lemma_be16_round_trip, lemma_be24_round_trip,
    lemma_from_be16_round_trip, lemma_from_be24_round_trip, read_be16, read_be24, write_be16,
    write_be24, Error, U24_LIMIT,
};
use crate::text::{append_decimal, decimal};
use vstd::prelude::*;
use vstd::string::StringExecFns;

verus! {

/// Number of bytes that a packed short channel id takes.
pub const SHORT_CHANNEL_ID_LEN: usize = 8;

/// The three numbers that a short channel id holds.
pub struct ShortChannelIdModel {
    pub block_height: u32,
    pub tx_index: u32,
    pub output_index: u16,
}

impl ShortChannelIdModel {
    /// Height and transaction index fit 24 bits.
    pub open spec fn valid(self) -> bool {
        self.block_height < U24_LIMIT && self.tx_index < U24_LIMIT
    }

    /// The textual form: the three numbers in decimal, with `x` between
    /// them.
    pub open spec fn text(self) -> Seq<char> {
        decimal(self.block_height as nat) + seq!['x'] + decimal(self.tx_index as nat) + seq!['x']
            + decimal(self.output_index as nat)
    }

    /// The eight packed bytes: height, transaction index, output index.
    pub open spec fn packed(self) -> Seq<u8> {
        be24(self.block_height) + be24(self.tx_index) + be16(self.output_index)
    }
}

/// The short channel id that a decoder reads from the front of `s`, or the
/// failure of an input of less than eight bytes.
pub open spec fn unpacked(s: Seq<u8>) -> Result<ShortChannelIdModel, Error> {
    if s.len() < SHORT_CHANNEL_ID_LEN {
        Err(Error::InsufficientData)
    } else {
        Ok(
            ShortChannelIdModel {
                block_height: from_be24(s.subrange(0, 3)),
                tx_index: from_be24(s.subrange(3, 6)),
                output_index: from_be16(s.subrange(6, 8)),
            },
        )
    }
}

/// Locator of the funding output of a channel on the chain.
#[derive(Clone, Copy, PartialEq, Eq, PartialOrd, Ord, Hash, Debug)]
pub struct ShortChannelId {
    block_height: u32,
    tx_index: u32,
    output_index: u16,
}

impl View for ShortChannelId {
    type V = ShortChannelIdModel;

    closed spec fn view(&self) -> ShortChannelIdModel {
        ShortChannelIdModel {
            block_height: self.block_height,
            tx_index: self.tx_index,
            output_index: self.output_index,
        }
    }
}

impl Default for ShortChannelId {
    /// The locator of output 0 of transaction 0 in block 0.
    fn default() -> (id: Self)
        ensures
            id@ == (ShortChannelIdModel { block_height: 0, tx_index: 0, output_index: 0 }),
    {
        ShortChannelId { block_height: 0, tx_index: 0, output_index: 0 }
    }
}

impl ShortChannelId {
    #[verifier::type_invariant]
    spec fn in_domain(self) -> bool {
        self.block_height < U24_LIMIT && self.tx_index < U24_LIMIT
    }

    /// A short channel id of the three numbers, or nothing where the height
    /// or the transaction index does not fit 24 bits.
    pub fn new(block_height: u32, tx_index: u32, output_index: u16) -> (id: Option<Self>)
        ensures
            match id {
                Some(id) => block_height < U24_LIMIT && tx_index < U24_LIMIT && id@ == (
                ShortChannelIdModel { block_height, tx_index, output_index }),
                None => block_height >= U24_LIMIT || tx_index >= U24_LIMIT,
            },
    {
        if block_height >= U24_LIMIT || tx_index >= U24_LIMIT {
            None
        } else {
            Some(ShortChannelId { block_height, tx_index, output_index })
        }
    }

    /// Height of the block that holds the funding transaction.
    pub fn block_height(&self) -> (height: u32)
        ensures
            height == self@.block_height,
            height < U24_LIMIT,
    {
        proof {
            use_type_invariant(self);
        }
        self.block_height
    }

    /// Index of the funding transaction in its block.
    pub fn tx_index(&self) -> (index: u32)
        ensures
            index == self@.tx_index,
            index < U24_LIMIT,
    {
        proof {
            use_type_invariant(self);
        }
        self.tx_index
    }

    /// Index of the funding output in its transaction.
    pub fn output_index(&self) -> (index: u16)
        ensures
            index == self@.output_index,
    {
        self.output_index
    }

    /// The id as text: height, transaction index and output index in
    /// decimal, with `x` between them.
    pub fn to_string(&self) -> (s: String)
        ensures
            s@ == self@.text(),
    {
        let mut s = String::new();
        append_decimal(&mut s, self.block_height);
        proof {
            reveal_strlit("x");
        }
        s.append("x");
        append_decimal(&mut s, self.tx_index);
        s.append("x");
        append_decimal(&mut s, self.output_index as u32);
        assert(s@ =~= self@.text());
        s
    }

    /// Appends the eight packed bytes to `e` and returns their number.
    pub fn strict_encode(&self, e: &mut Vec<u8>) -> (r: Result<usize, Error>)
        ensures
            self@.valid(),
            final(e)@ == old(e)@ + self@.packed(),
            r == Ok::<usize, Error>(SHORT_CHANNEL_ID_LEN),
    {
        proof {
            use_type_invariant(self);
        }
        let mut len: usize = 0;
        len = len + write_be24(e, self.block_height);
        len = len + write_be24(e, self.tx_index);
        len = len + write_be16(e, self.output_index);
        assert(e@ =~= old(e)@ + self@.packed());
        Ok(len)
    }

    /// Reads a short channel id from the first eight bytes of `d`.
    pub fn strict_decode(d: &[u8]) -> (r: Result<Self, Error>)
        ensures
            match r {
                Ok(id) => unpacked(d@) == Ok::<ShortChannelIdModel, Error>(id@),
                Err(e) => unpacked(d@) == Err::<ShortChannelIdModel, Error>(e),
            },
    {
        let block_height = match read_be24(d, 0) {
            Ok(v) => v,
            Err(e) => {
                return Err(e);
            },
        };
        let tx_index = match read_be24(d, 3) {
            Ok(v) => v,
            Err(e) => {
                return Err(e);
            },
        };
        let output_index = match read_be16(d, 6) {
            Ok(v) => v,
            Err(e) => {
                return Err(e);
            },
        };
        proof {
            lemma_from_be24_round_trip(d@.subrange(0, 3));
            lemma_from_be24_round_trip(d@.subrange(3, 6));
        }
        Ok(ShortChannelId { block_height, tx_index, output_index })
    }
}

/// Short channel ids of the same three numbers are the same id: what is
/// proved of the numbers of an id is proved of the id.
pub proof fn lemma_short_channel_id_by_numbers(a: ShortChannelId, b: ShortChannelId)
    requires
        a@ == b@,
    ensures
        a == b,
{
}

/// Unpacking the packed bytes of a short channel id gives its three numbers
/// back, whatever bytes follow them, for every height and transaction index
/// of at most 24 bits.
pub proof fn lemma_pack_round_trip(m: ShortChannelIdModel, rest: Seq<u8>)
    requires
        m.valid(),
    ensures
        m.packed().len() == SHORT_CHANNEL_ID_LEN,
        unpacked(m.packed() + rest) == Ok::<ShortChannelIdModel, Error>(m),
{
    let s = m.packed() + rest;
    lemma_be24_round_trip(m.block_height);
    lemma_be24_round_trip(m.tx_index);
    lemma_be16_round_trip(m.output_index);
    assert(s.subrange(0, 3) =~= be24(m.block_height));
    assert(s.subrange(3, 6) =~= be24(m.tx_index));
    assert(s.subrange(6, 8) =~= be16(m.output_index));
}

/// What is unpacked from eight bytes is in the domain of short channel
/// ids, and packing it gives the eight bytes again.
pub proof fn lemma_unpack_canonical(s: Seq<u8>)
    requires
        s.len() >= SHORT_CHANNEL_ID_LEN,
    ensures
        unpacked(s) is Ok,
        unpacked(s).unwrap().valid(),
        unpacked(s).unwrap().packed() == s.subrange(0, SHORT_CHANNEL_ID_LEN as int),
{
    lemma_from_be24_round_trip(s.subrange(0, 3));
    lemma_from_be24_round_trip(s.subrange(3, 6));
    lemma_from_be16_round_trip(s.subrange(6, 8));
    assert(unpacked(s).unwrap().packed() =~= s.subrange(0, SHORT_CHANNEL_ID_LEN as int));
}

} // verus!
