//! Tags of the protocol extensions.
//!
//! Each extension has a numeric code of 16 bits, which peers and the
//! extension dispatch exchange as two big-endian bytes. The codes are fixed:
//! a code never changes its extension.

use crate::codec::{be16, from_be16, lemma_be16_round_trip, read_be16, write_be16, Error};
use vstd::prelude::*;

verus! {

/// Number of extension tags.
pub const EXTENSION_COUNT: u16 = 12;

/// Tag of a protocol extension.
#[derive(Clone, Copy, PartialEq, Eq, PartialOrd, Ord, Hash, Debug)]
pub enum ExtensionId {
    /// The channel itself.
    Channel,
    Bolt3,
    Eltoo,
    Taproot,
    Htlc,
    Ptlc,
    ShutdownScript,
    AnchorOut,
    Dlc,
    Lightspeed,
    Bip96,
    Rgb,
}

impl ExtensionId {
    /// The numeric code of the tag.
    pub open spec fn code(self) -> u16 {
        match self {
            ExtensionId::Channel => 0,
            ExtensionId::Bolt3 => 1,
            ExtensionId::Eltoo => 2,
            ExtensionId::Taproot => 3,
            ExtensionId::Htlc => 4,
            ExtensionId::Ptlc => 5,
            ExtensionId::ShutdownScript => 6,
            ExtensionId::AnchorOut => 7,
            ExtensionId::Dlc => 8,
            ExtensionId::Lightspeed => 9,
            ExtensionId::Bip96 => 10,
            ExtensionId::Rgb => 11,
        }
    }

    /// The tag that has the numeric code `code`, where there is one.
    pub open spec fn with_code(code: u16) -> Option<ExtensionId> {
        if code == 0 {
            Some(ExtensionId::Channel)
        } else if code == 1 {
            Some(ExtensionId::Bolt3)
        } else if code == 2 {
            Some(ExtensionId::Eltoo)
        } else if code == 3 {
            Some(ExtensionId::Taproot)
        } else if code == 4 {
            Some(ExtensionId::Htlc)
        } else if code == 5 {
            Some(ExtensionId::Ptlc)
        } else if code == 6 {
            Some(ExtensionId::ShutdownScript)
        } else if code == 7 {
            Some(ExtensionId::AnchorOut)
        } else if code == 8 {
            Some(ExtensionId::Dlc)
        } else if code == 9 {
            Some(ExtensionId::Lightspeed)
        } else if code == 10 {
            Some(ExtensionId::Bip96)
        } else if code == 11 {
            Some(ExtensionId::Rgb)
        } else {
            None
        }
    }

    /// The tag that a decoder reads from the front of `s`, or the failure it
    /// meets: less than two bytes, or a code that no tag has.
    pub open spec fn decoding(s: Seq<u8>) -> Result<ExtensionId, Error> {
        if s.len() < 2 {
            Err(Error::InsufficientData)
        } else {
            match ExtensionId::with_code(from_be16(s.subrange(0, 2))) {
                Some(id) => Ok(id),
                None => Err(Error::EnumValueNotKnown),
            }
        }
    }

    /// Appends the code of the tag to `e` as two big-endian bytes and
    /// returns their number.
    pub fn lightning_encode(&self, e: &mut Vec<u8>) -> (r: Result<usize, Error>)
        ensures
            final(e)@ == old(e)@ + be16(self.code()),
            r == Ok::<usize, Error>(2),
    {
        let code: u16 = u16::from(*self);
        Ok(write_be16(e, code))
    }

    /// Reads a tag from the first two bytes of `d`.
    pub fn lightning_decode(d: &[u8]) -> (r: Result<Self, Error>)
        ensures
            r == ExtensionId::decoding(d@),
    {
        let code = match read_be16(d, 0) {
            Ok(c) => c,
            Err(e) => {
                return Err(e);
            },
        };
        ExtensionId::try_from(code)
    }
}

impl Default for ExtensionId {
    /// The tag of the channel itself.
    fn default() -> (id: Self)
        ensures
            id == ExtensionId::Channel,
    {
        ExtensionId::Channel
    }
}

impl From<ExtensionId> for u16 {
    /// The numeric code of the tag.
    fn from(id: ExtensionId) -> (code: u16) {
        match id {
            ExtensionId::Channel => 0,
            ExtensionId::Bolt3 => 1,
            ExtensionId::Eltoo => 2,
            ExtensionId::Taproot => 3,
            ExtensionId::Htlc => 4,
            ExtensionId::Ptlc => 5,
            ExtensionId::ShutdownScript => 6,
            ExtensionId::AnchorOut => 7,
            ExtensionId::Dlc => 8,
            ExtensionId::Lightspeed => 9,
            ExtensionId::Bip96 => 10,
            ExtensionId::Rgb => 11,
        }
    }
}

impl vstd::std_specs::convert::FromSpecImpl<ExtensionId> for u16 {
    open spec fn obeys_from_spec() -> bool {
        true
    }

    open spec fn from_spec(id: ExtensionId) -> u16 {
        id.code()
    }
}

impl TryFrom<u16> for ExtensionId {
    type Error = Error;

    /// The tag that has the numeric code `value`; `EnumValueNotKnown` where
    /// no tag has it.
    fn try_from(value: u16) -> (r: Result<Self, Error>) {
        match value {
            0 => Ok(ExtensionId::Channel),
            1 => Ok(ExtensionId::Bolt3),
            2 => Ok(ExtensionId::Eltoo),
            3 => Ok(ExtensionId::Taproot),
            4 => Ok(ExtensionId::Htlc),
            5 => Ok(ExtensionId::Ptlc),
            6 => Ok(ExtensionId::ShutdownScript),
            7 => Ok(ExtensionId::AnchorOut),
            8 => Ok(ExtensionId::Dlc),
            9 => Ok(ExtensionId::Lightspeed),
            10 => Ok(ExtensionId::Bip96),
            11 => Ok(ExtensionId::Rgb),
            _ => Err(Error::EnumValueNotKnown),
        }
    }
}

impl vstd::std_specs::convert::TryFromSpecImpl<u16> for ExtensionId {
    open spec fn obeys_try_from_spec() -> bool {
        true
    }

    open spec fn try_from_spec(value: u16) -> Result<Self, Error> {
        match ExtensionId::with_code(value) {
            Some(id) => Ok(id),
            None => Err(Error::EnumValueNotKnown),
        }
    }
}

/// The codes and the tags correspond one to one: the code of a tag leads
/// back to the tag, a code that leads to a tag is the code of that tag, and
/// the codes that lead to a tag are those below the number of tags.
pub proof fn lemma_code_bijection(id: ExtensionId, code: u16)
    ensures
        ExtensionId::with_code(id.code()) == Some(id),
        id.code() < EXTENSION_COUNT,
        ExtensionId::with_code(code) is Some <==> code < EXTENSION_COUNT,
        ExtensionId::with_code(code) is Some ==> ExtensionId::with_code(code).unwrap().code()
            == code,
{
}

/// Decoding the two bytes of a tag gives the tag back, whatever bytes follow
/// them.
pub proof fn lemma_extension_round_trip(id: ExtensionId, rest: Seq<u8>)
    ensures
        ExtensionId::decoding(be16(id.code()) + rest) == Ok::<ExtensionId, Error>(id),
{
    let s = be16(id.code()) + rest;
    lemma_be16_round_trip(id.code());
    assert(s.subrange(0, 2) =~= be16(id.code()));
}

} // verus!
