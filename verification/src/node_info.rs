//! What a node announces of itself beside its addresses: an alias and a
//! colour.

use crate::channel_id::id_decoding;
use crate::codec::{read_array, write_bytes, Error};
use crate::text::{hex, hex_string};
use vstd::prelude::*;

verus! {

/// Number of bytes of an alias.
pub const ALIAS_LEN: usize = 32;

/// Number of bytes of a colour: red, green and blue.
pub const COLOR_LEN: usize = 3;

/// Alias of a node: 32 bytes, which are written and read as channel ids
/// are.
#[derive(Clone, Copy, PartialEq, Eq, PartialOrd, Ord, Hash, Debug)]
pub struct Alias([u8; 32]);

impl View for Alias {
    type V = Seq<u8>;

    closed spec fn view(&self) -> Seq<u8> {
        self.0@
    }
}

impl Alias {
    /// The alias that has the bytes `inner`.
    pub fn from_inner(inner: [u8; 32]) -> (alias: Self)
        ensures
            alias@ == inner@,
    {
        Alias(inner)
    }

    /// The bytes of the alias.
    pub fn to_inner(&self) -> (inner: [u8; 32])
        ensures
            inner@ == self@,
            self@.len() == ALIAS_LEN,
    {
        self.0
    }

    /// The alias as 64 hexadecimal digits in lower case.
    pub fn to_hex(&self) -> (s: String)
        ensures
            s@ == hex(self@, false),
    {
        hex_string(self.0.as_slice(), false)
    }

    /// The alias as 64 hexadecimal digits in upper case.
    pub fn to_hex_upper(&self) -> (s: String)
        ensures
            s@ == hex(self@, true),
    {
        hex_string(self.0.as_slice(), true)
    }

    /// Appends the 32 bytes of the alias to `e` and returns their number.
    pub fn lightning_encode(&self, e: &mut Vec<u8>) -> (r: Result<usize, Error>)
        ensures
            final(e)@ == old(e)@ + self@,
            r == Ok::<usize, Error>(ALIAS_LEN),
    {
        Ok(write_bytes(e, self.0.as_slice()))
    }

    /// Reads an alias from the first 32 bytes of `d`.
    pub fn lightning_decode(d: &[u8]) -> (r: Result<Self, Error>)
        ensures
            match r {
                Ok(alias) => id_decoding(d@) == Ok::<Seq<u8>, Error>(alias@),
                Err(e) => id_decoding(d@) == Err::<Seq<u8>, Error>(e),
            },
    {
        match read_array::<32>(d, 0) {
            Ok(bytes) => Ok(Alias(bytes)),
            Err(e) => Err(e),
        }
    }
}

/// The three bytes that a decoder reads from the front of `s`, or the
/// failure of an input of less than three bytes.
pub open spec fn color_decoding(s: Seq<u8>) -> Result<Seq<u8>, Error> {
    if s.len() < COLOR_LEN {
        Err(Error::InsufficientData)
    } else {
        Ok(s.subrange(0, COLOR_LEN as int))
    }
}

/// Colour of a node: three bytes, which are written and read as they
/// stand, with no length in front.
#[derive(Clone, Debug, PartialEq, Eq)]
pub struct NodeColor([u8; 3]);

impl View for NodeColor {
    type V = Seq<u8>;

    closed spec fn view(&self) -> Seq<u8> {
        self.0@
    }
}

impl NodeColor {
    /// The colour that has the bytes `inner`.
    pub fn from_inner(inner: [u8; 3]) -> (color: Self)
        ensures
            color@ == inner@,
    {
        NodeColor(inner)
    }

    /// The bytes of the colour.
    pub fn to_inner(&self) -> (inner: [u8; 3])
        ensures
            inner@ == self@,
            self@.len() == COLOR_LEN,
    {
        self.0
    }

    /// Appends the three bytes of the colour to `e` and returns their
    /// number.
    pub fn strict_encode(&self, e: &mut Vec<u8>) -> (r: Result<usize, Error>)
        ensures
            final(e)@ == old(e)@ + self@,
            r == Ok::<usize, Error>(COLOR_LEN),
    {
        Ok(write_bytes(e, self.0.as_slice()))
    }

    /// Reads a colour from the first three bytes of `d`.
    pub fn strict_decode(d: &[u8]) -> (r: Result<Self, Error>)
        ensures
            match r {
                Ok(color) => color_decoding(d@) == Ok::<Seq<u8>, Error>(color@),
                Err(e) => color_decoding(d@) == Err::<Seq<u8>, Error>(e),
            },
    {
        match read_array::<3>(d, 0) {
            Ok(bytes) => Ok(NodeColor(bytes)),
            Err(e) => Err(e),
        }
    }
}

/// Aliases with the same bytes are the same alias.
pub proof fn lemma_alias_by_bytes(a: Alias, b: Alias)
    requires
        a@ == b@,
    ensures
        a == b,
{
    assert(a.0 =~= b.0);
}

/// Colours with the same bytes are the same colour.
pub proof fn lemma_node_color_by_bytes(a: NodeColor, b: NodeColor)
    requires
        a@ == b@,
    ensures
        a == b,
{
    assert(a.0 =~= b.0);
}

/// A run of 32 bytes that is written and read back is the same run,
/// whatever bytes follow it; so is a run of three bytes.
pub proof fn lemma_raw_round_trip(id: Seq<u8>, color: Seq<u8>, rest: Seq<u8>)
    requires
        id.len() == ALIAS_LEN,
        color.len() == COLOR_LEN,
    ensures
        id_decoding(id + rest) == Ok::<Seq<u8>, Error>(id),
        color_decoding(color + rest) == Ok::<Seq<u8>, Error>(color),
{
    assert((id + rest).subrange(0, ALIAS_LEN as int) =~= id);
    assert((color + rest).subrange(0, COLOR_LEN as int) =~= color);
}

} // verus!
