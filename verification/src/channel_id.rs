//! Channel ids: the 32 bytes by which the peers of a channel name it.
//!
//! Before the funding output is known a channel goes by a temporary id of
//! random bytes. Once it is known the channel id is derived from it. On the
//! wire and in storage both are their 32 bytes as they stand; as text they
//! are 64 hexadecimal digits.

use crate::codec::{read_array, write_bytes, zeros, Error};
use crate::text::{hex, hex_string};
use vstd::prelude::*;
use vstd::std_specs::convert::FromSpec;

verus! {

/// Number of bytes of a channel id.
pub const CHANNEL_ID_LEN: usize = 32;

/// The bytes of the channel id of the funding output `output_index` of the
/// transaction `txid`: those of `txid`, with its last two bytes combined by
/// exclusive or with the two big-endian bytes of `output_index`.
pub open spec fn derived_bytes(txid: Seq<u8>, output_index: u16) -> Seq<u8>
    recommends
        txid.len() == CHANNEL_ID_LEN,
{
    txid.update(30, txid[30] ^ ((output_index / 256) as u8)).update(
        31,
        txid[31] ^ ((output_index % 256) as u8),
    )
}

/// Whether all of `bytes` are zero.
pub fn all_zero(bytes: &[u8; 32]) -> (r: bool)
    ensures
        r == (bytes@ == zeros(CHANNEL_ID_LEN as nat)),
{
    let mut i: usize = 0;
    while i < 32
        invariant
            i <= 32,
            forall|j: int| 0 <= j < i ==> bytes@[j] == 0u8,
        decreases 32 - i,
    {
        if bytes[i] != 0 {
            assert(zeros(CHANNEL_ID_LEN as nat)[i as int] == 0u8);
            return false;
        }
        i = i + 1;
    }
    assert(bytes@ =~= zeros(CHANNEL_ID_LEN as nat));
    true
}

/// The 32 bytes that a decoder reads from the front of `s`, or the failure
/// of an input of less than 32 bytes.
pub open spec fn id_decoding(s: Seq<u8>) -> Result<Seq<u8>, Error> {
    if s.len() < CHANNEL_ID_LEN {
        Err(Error::InsufficientData)
    } else {
        Ok(s.subrange(0, CHANNEL_ID_LEN as int))
    }
}

/// Thirty-two bytes from `wallet::Slice32::random`, which draws a fresh
/// secp256k1 secret key from the random number generator of the calling
/// thread and hands out its bytes. Nothing is claimed of the bytes.
#[verifier::external_body]
fn random_bytes() -> (bytes: [u8; 32]) {
    amplify::Wrapper::into_inner(wallet::Slice32::random())
}

/// Id of a channel whose funding output is known.
#[derive(Clone, Copy, PartialEq, Eq, PartialOrd, Ord, Hash, Debug)]
pub struct ChannelId([u8; 32]);

impl View for ChannelId {
    type V = Seq<u8>;

    closed spec fn view(&self) -> Seq<u8> {
        self.0@
    }
}

impl Default for ChannelId {
    /// The id of 32 zero bytes.
    fn default() -> (id: Self)
        ensures
            id@ == zeros(CHANNEL_ID_LEN as nat),
    {
        let id = ChannelId([0u8; 32]);
        assert(id@ =~= zeros(CHANNEL_ID_LEN as nat));
        id
    }
}

impl ChannelId {
    /// The id that has the bytes `inner`.
    pub fn from_inner(inner: [u8; 32]) -> (id: Self)
        ensures
            id@ == inner@,
    {
        ChannelId(inner)
    }

    /// The bytes of the id.
    pub fn to_inner(&self) -> (inner: [u8; 32])
        ensures
            inner@ == self@,
            self@.len() == CHANNEL_ID_LEN,
    {
        self.0
    }

    /// The id of the channel that is funded by output `output_index` of the
    /// transaction with the id `funding_txid`.
    pub fn with(funding_txid: [u8; 32], output_index: u16) -> (id: Self)
        ensures
            id@ == derived_bytes(funding_txid@, output_index),
    {
        let mut slice = funding_txid;
        let hi: u8 = slice[30] ^ ((output_index / 256) as u8);
        let lo: u8 = slice[31] ^ ((output_index % 256) as u8);
        slice[30] = hi;
        slice[31] = lo;
        ChannelId(slice)
    }

    /// Whether this is the id of 32 zero bytes, which in some messages
    /// stands for all channels at once.
    pub fn is_wildcard(&self) -> (r: bool)
        ensures
            r == (self@ == zeros(CHANNEL_ID_LEN as nat)),
    {
        all_zero(&self.0)
    }

    /// The id as 64 hexadecimal digits in lower case.
    pub fn to_hex(&self) -> (s: String)
        ensures
            s@ == hex(self@, false),
    {
        hex_string(self.0.as_slice(), false)
    }

    /// The id as 64 hexadecimal digits in upper case.
    pub fn to_hex_upper(&self) -> (s: String)
        ensures
            s@ == hex(self@, true),
    {
        hex_string(self.0.as_slice(), true)
    }

    /// Appends the 32 bytes of the id to `e` and returns their number.
    pub fn lightning_encode(&self, e: &mut Vec<u8>) -> (r: Result<usize, Error>)
        ensures
            final(e)@ == old(e)@ + self@,
            r == Ok::<usize, Error>(CHANNEL_ID_LEN),
    {
        Ok(write_bytes(e, self.0.as_slice()))
    }

    /// Reads an id from the first 32 bytes of `d`.
    pub fn lightning_decode(d: &[u8]) -> (r: Result<Self, Error>)
        ensures
            match r {
                Ok(id) => id_decoding(d@) == Ok::<Seq<u8>, Error>(id@),
                Err(e) => id_decoding(d@) == Err::<Seq<u8>, Error>(e),
            },
    {
        match read_array::<32>(d, 0) {
            Ok(bytes) => Ok(ChannelId(bytes)),
            Err(e) => Err(e),
        }
    }
}

/// Id of a channel whose funding output is not known yet.
#[derive(Clone, Copy, PartialEq, Eq, PartialOrd, Ord, Hash, Debug)]
pub struct TempChannelId([u8; 32]);

impl View for TempChannelId {
    type V = Seq<u8>;

    closed spec fn view(&self) -> Seq<u8> {
        self.0@
    }
}

impl TempChannelId {
    /// The id that has the bytes `inner`.
    pub fn from_inner(inner: [u8; 32]) -> (id: Self)
        ensures
            id@ == inner@,
    {
        TempChannelId(inner)
    }

    /// The bytes of the id.
    pub fn to_inner(&self) -> (inner: [u8; 32])
        ensures
            inner@ == self@,
            self@.len() == CHANNEL_ID_LEN,
    {
        self.0
    }

    /// A fresh id of 32 random bytes, for a channel whose negotiation
    /// begins. Which bytes they are is for the random source to say: two
    /// calls may give any two ids.
    pub fn random() -> (id: Self)
        ensures
            id@.len() == CHANNEL_ID_LEN,
    {
        TempChannelId::from_inner(random_bytes())
    }

    /// The id of 32 zero bytes, for where a value is needed and none is
    /// meant.
    pub fn dumb_default() -> (id: Self)
        ensures
            id@ == zeros(CHANNEL_ID_LEN as nat),
    {
        let id = TempChannelId([0u8; 32]);
        assert(id@ =~= zeros(CHANNEL_ID_LEN as nat));
        id
    }

    /// The id as 64 hexadecimal digits in lower case.
    pub fn to_hex(&self) -> (s: String)
        ensures
            s@ == hex(self@, false),
    {
        hex_string(self.0.as_slice(), false)
    }

    /// The id as 64 hexadecimal digits in upper case.
    pub fn to_hex_upper(&self) -> (s: String)
        ensures
            s@ == hex(self@, true),
    {
        hex_string(self.0.as_slice(), true)
    }

    /// Appends the 32 bytes of the id to `e` and returns their number.
    pub fn lightning_encode(&self, e: &mut Vec<u8>) -> (r: Result<usize, Error>)
        ensures
            final(e)@ == old(e)@ + self@,
            r == Ok::<usize, Error>(CHANNEL_ID_LEN),
    {
        Ok(write_bytes(e, self.0.as_slice()))
    }

    /// Reads an id from the first 32 bytes of `d`.
    pub fn lightning_decode(d: &[u8]) -> (r: Result<Self, Error>)
        ensures
            match r {
                Ok(id) => id_decoding(d@) == Ok::<Seq<u8>, Error>(id@),
                Err(e) => id_decoding(d@) == Err::<Seq<u8>, Error>(e),
            },
    {
        match read_array::<32>(d, 0) {
            Ok(bytes) => Ok(TempChannelId(bytes)),
            Err(e) => Err(e),
        }
    }
}

impl From<TempChannelId> for ChannelId {
    /// The channel id that has the bytes of the temporary id. Nothing is
    /// derived: the bytes are taken as they are.
    fn from(temp: TempChannelId) -> (id: ChannelId) {
        ChannelId(temp.0)
    }
}

impl vstd::std_specs::convert::FromSpecImpl<TempChannelId> for ChannelId {
    open spec fn obeys_from_spec() -> bool {
        true
    }

    closed spec fn from_spec(temp: TempChannelId) -> ChannelId {
        ChannelId(temp.0)
    }
}

impl From<ChannelId> for TempChannelId {
    /// The temporary id that has the bytes of the channel id.
    fn from(id: ChannelId) -> (temp: TempChannelId) {
        TempChannelId(id.0)
    }
}

impl vstd::std_specs::convert::FromSpecImpl<ChannelId> for TempChannelId {
    open spec fn obeys_from_spec() -> bool {
        true
    }

    closed spec fn from_spec(id: ChannelId) -> TempChannelId {
        TempChannelId(id.0)
    }
}

/// Converting between channel id and temporary id keeps the bytes, and
/// there and back gives the id that one began with.
pub proof fn lemma_id_conversion(id: ChannelId, temp: TempChannelId)
    ensures
        TempChannelId::from_spec(id)@ == id@,
        ChannelId::from_spec(temp)@ == temp@,
        ChannelId::from_spec(TempChannelId::from_spec(id)) == id,
        TempChannelId::from_spec(ChannelId::from_spec(temp)) == temp,
{
}

/// Ids with the same bytes are the same id: what is proved of the bytes of
/// an id is proved of the id.
pub proof fn lemma_channel_id_by_bytes(a: ChannelId, b: ChannelId)
    requires
        a@ == b@,
    ensures
        a == b,
{
    assert(a.0 =~= b.0);
}

/// Temporary ids with the same bytes are the same id.
pub proof fn lemma_temp_channel_id_by_bytes(a: TempChannelId, b: TempChannelId)
    requires
        a@ == b@,
    ensures
        a == b,
{
    assert(a.0 =~= b.0);
}

/// The channel id is a function of the funding output: the same output
/// gives the same id. And two outputs of one transaction never share an
/// id: other output indices give other ids.
pub proof fn lemma_derived_distinct(txid: Seq<u8>, a: u16, b: u16)
    requires
        txid.len() == CHANNEL_ID_LEN,
    ensures
        derived_bytes(txid, a).len() == CHANNEL_ID_LEN,
        a == b ==> derived_bytes(txid, a) == derived_bytes(txid, b),
        a != b ==> derived_bytes(txid, a) != derived_bytes(txid, b),
{
    if a != b {
        let x = txid[30];
        let y = txid[31];
        let ah = (a / 256) as u8;
        let bh = (b / 256) as u8;
        let al = (a % 256) as u8;
        let bl = (b % 256) as u8;
        assert(derived_bytes(txid, a)[30] == x ^ ah);
        assert(derived_bytes(txid, b)[30] == x ^ bh);
        assert(derived_bytes(txid, a)[31] == y ^ al);
        assert(derived_bytes(txid, b)[31] == y ^ bl);
        if ah != bh {
            assert(x ^ ah != x ^ bh) by (bit_vector)
                requires
                    ah != bh,
            ;
        } else {
            assert(al != bl);
            assert(y ^ al != y ^ bl) by (bit_vector)
                requires
                    al != bl,
            ;
        }
    }
}

} // verus!
