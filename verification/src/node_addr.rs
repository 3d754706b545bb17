//! Announced node addresses: the four address families that a node may
//! announce, and their wire layout.
//!
//! On the wire an address is a one-byte family tag, the family's fixed-width
//! body and the port as two big-endian bytes.

use crate::codec::{
    be16, from_be16, lemma_from_be16_round_trip, read_array, read_be16, read_u8, write_be16,
    write_bytes, write_u8, Error,
};
use vstd::prelude::*;

verus! {

/// Wire tag of an IPv4 address.
pub const TAG_IPV4: u8 = 1;

/// Wire tag of an IPv6 address.
pub const TAG_IPV6: u8 = 2;

/// Wire tag of a Tor v2 onion address.
pub const TAG_ONION_V2: u8 = 3;

/// Wire tag of a Tor v3 onion address.
pub const TAG_ONION_V3: u8 = 4;

/// An address on which a node announces that it listens.
#[derive(Clone, Copy, Debug, PartialEq, Eq, Hash, PartialOrd, Ord)]
#[allow(inconsistent_fields)]
pub enum AnnouncedNodeAddr {
    /// An IPv4 address and port.
    IpV4 {
        /// The four bytes of the address.
        addr: [u8; 4],
        /// The port on which the node listens.
        port: u16,
    },
    /// An IPv6 address and port.
    IpV6 {
        /// The sixteen bytes of the address.
        addr: [u8; 16],
        /// The port on which the node listens.
        port: u16,
    },
    /// An old-style Tor onion address and port.
    OnionV2 {
        /// The ten bytes of the onion address.
        addr: [u8; 10],
        /// The port on which the node listens.
        port: u16,
    },
    /// A new-style Tor onion address and port.
    OnionV3 {
        /// The ed25519 long-term public key of the node.
        ed25519_pubkey: [u8; 32],
        /// Checksum of public key and version. The uniform form of an
        /// address does not carry it, so it may be absent; the wire form
        /// needs it.
        checksum: Option<u16>,
        /// Version byte of the onion address. Absent and needed as the
        /// checksum is.
        version: Option<u8>,
        /// The port on which the node listens.
        port: u16,
    },
}

/// What an announced address is, with its byte fields as sequences.
#[allow(inconsistent_fields)]
pub enum NodeAddrModel {
    IpV4 { addr: Seq<u8>, port: u16 },
    IpV6 { addr: Seq<u8>, port: u16 },
    OnionV2 { addr: Seq<u8>, port: u16 },
    OnionV3 { pubkey: Seq<u8>, checksum: Option<u16>, version: Option<u8>, port: u16 },
}

impl View for AnnouncedNodeAddr {
    type V = NodeAddrModel;

    open spec fn view(&self) -> NodeAddrModel {
        match *self {
            AnnouncedNodeAddr::IpV4 { addr, port } => NodeAddrModel::IpV4 { addr: addr@, port },
            AnnouncedNodeAddr::IpV6 { addr, port } => NodeAddrModel::IpV6 { addr: addr@, port },
            AnnouncedNodeAddr::OnionV2 { addr, port } => NodeAddrModel::OnionV2 {
                addr: addr@,
                port,
            },
            AnnouncedNodeAddr::OnionV3 {
                ed25519_pubkey,
                checksum,
                version,
                port,
            } => NodeAddrModel::OnionV3 { pubkey: ed25519_pubkey@, checksum, version, port },
        }
    }
}

/// Width in bytes of the body that follows the tag `tag`, the port left out.
pub open spec fn body_len(tag: u8) -> nat {
    if tag == TAG_IPV4 {
        4
    } else if tag == TAG_IPV6 {
        16
    } else if tag == TAG_ONION_V2 {
        10
    } else {
        35
    }
}

impl NodeAddrModel {
    /// The byte fields have the widths of their family.
    pub open spec fn wf(self) -> bool {
        match self {
            NodeAddrModel::IpV4 { addr, .. } => addr.len() == 4,
            NodeAddrModel::IpV6 { addr, .. } => addr.len() == 16,
            NodeAddrModel::OnionV2 { addr, .. } => addr.len() == 10,
            NodeAddrModel::OnionV3 { pubkey, .. } => pubkey.len() == 32,
        }
    }

    /// The family tag that opens the wire form.
    pub open spec fn tag(self) -> u8 {
        match self {
            NodeAddrModel::IpV4 { .. } => TAG_IPV4,
            NodeAddrModel::IpV6 { .. } => TAG_IPV6,
            NodeAddrModel::OnionV2 { .. } => TAG_ONION_V2,
            NodeAddrModel::OnionV3 { .. } => TAG_ONION_V3,
        }
    }

    /// The port of the address.
    pub open spec fn port(self) -> u16 {
        match self {
            NodeAddrModel::IpV4 { port, .. } => port,
            NodeAddrModel::IpV6 { port, .. } => port,
            NodeAddrModel::OnionV2 { port, .. } => port,
            NodeAddrModel::OnionV3 { port, .. } => port,
        }
    }

    /// Whether the address has a wire form: every address has one but a Tor
    /// v3 address that lacks its checksum or its version.
    pub open spec fn wire_encodable(self) -> bool {
        match self {
            NodeAddrModel::OnionV3 { checksum, version, .. } => checksum is Some
                && version is Some,
            _ => true,
        }
    }

    /// The bytes that encoding the address appends to the buffer. For an
    /// address that has a wire form this is that form. For one that has
    /// none it is what is written before the missing field is met.
    pub open spec fn wire_bytes(self) -> Seq<u8> {
        match self {
            NodeAddrModel::IpV4 { addr, port } => seq![TAG_IPV4] + addr + be16(port),
            NodeAddrModel::IpV6 { addr, port } => seq![TAG_IPV6] + addr + be16(port),
            NodeAddrModel::OnionV2 { addr, port } => seq![TAG_ONION_V2] + addr + be16(port),
            NodeAddrModel::OnionV3 { pubkey, checksum, version, port } => {
                let head = seq![TAG_ONION_V3] + pubkey;
                match checksum {
                    None => head,
                    Some(c) => match version {
                        None => head + be16(c),
                        Some(v) => head + be16(c) + seq![v] + be16(port),
                    },
                }
            },
        }
    }

    /// Length of the wire form of an address of this family.
    pub open spec fn wire_len(self) -> nat {
        1 + body_len(self.tag()) + 2
    }
}

/// The address that a decoder reads from the front of `s`, or the failure
/// it meets: the input ends before the tag, the tag names no family, or
/// the input ends before the family's body and port are complete.
pub open spec fn wire_decoding(s: Seq<u8>) -> Result<NodeAddrModel, Error> {
    if s.len() < 1 {
        Err(Error::InsufficientData)
    } else if s[0] < TAG_IPV4 || s[0] > TAG_ONION_V3 {
        Err(Error::InvalidFormat)
    } else if s.len() < 1 + body_len(s[0]) + 2 {
        Err(Error::InsufficientData)
    } else if s[0] == TAG_IPV4 {
        Ok(NodeAddrModel::IpV4 { addr: s.subrange(1, 5), port: from_be16(s.subrange(5, 7)) })
    } else if s[0] == TAG_IPV6 {
        Ok(NodeAddrModel::IpV6 { addr: s.subrange(1, 17), port: from_be16(s.subrange(17, 19)) })
    } else if s[0] == TAG_ONION_V2 {
        Ok(
            NodeAddrModel::OnionV2 {
                addr: s.subrange(1, 11),
                port: from_be16(s.subrange(11, 13)),
            },
        )
    } else {
        Ok(
            NodeAddrModel::OnionV3 {
                pubkey: s.subrange(1, 33),
                checksum: Some(from_be16(s.subrange(33, 35))),
                version: Some(s[35]),
                port: from_be16(s.subrange(36, 38)),
            },
        )
    }
}

impl AnnouncedNodeAddr {
    /// The family tag that opens the wire form of the address.
    pub fn into_u8(&self) -> (tag: u8)
        ensures
            tag == self@.tag(),
            TAG_IPV4 <= tag <= TAG_ONION_V3,
    {
        match self {
            AnnouncedNodeAddr::IpV4 { .. } => TAG_IPV4,
            AnnouncedNodeAddr::IpV6 { .. } => TAG_IPV6,
            AnnouncedNodeAddr::OnionV2 { .. } => TAG_ONION_V2,
            AnnouncedNodeAddr::OnionV3 { .. } => TAG_ONION_V3,
        }
    }

    /// Number of bytes of a wire form that begins with the tag `tag`, the
    /// tag counted in: what a reader of a stream has to fetch once it has
    /// seen the tag. A tag that names no family is `InvalidFormat`.
    pub fn wire_len_of_tag(tag: u8) -> (r: Result<usize, Error>)
        ensures
            r == if TAG_IPV4 <= tag <= TAG_ONION_V3 {
                Ok::<usize, Error>((1 + body_len(tag) + 2) as usize)
            } else {
                Err::<usize, Error>(Error::InvalidFormat)
            },
    {
        match tag {
            1u8 => Ok(7),
            2u8 => Ok(19),
            3u8 => Ok(13),
            4u8 => Ok(38),
            _ => Err(Error::InvalidFormat),
        }
    }

    /// Number of bytes that the wire form of the address takes.
    pub fn wire_len(&self) -> (n: usize)
        ensures
            n == self@.wire_len(),
    {
        match self {
            AnnouncedNodeAddr::IpV4 { .. } => 7,
            AnnouncedNodeAddr::IpV6 { .. } => 19,
            AnnouncedNodeAddr::OnionV2 { .. } => 13,
            AnnouncedNodeAddr::OnionV3 { .. } => 38,
        }
    }

    /// Appends the wire form of the address to `e` and returns the number of
    /// bytes written. A Tor v3 address that lacks its checksum or version
    /// has no wire form: the bytes in front of the missing field are
    /// written and the call fails with `DataIntegrityError`.
    pub fn lightning_encode(&self, e: &mut Vec<u8>) -> (r: Result<usize, Error>)
        ensures
            final(e)@ == old(e)@ + self@.wire_bytes(),
            r == if self@.wire_encodable() {
                Ok::<usize, Error>(self@.wire_len() as usize)
            } else {
                Err::<usize, Error>(Error::DataIntegrityError)
            },
            self@.wire_encodable() ==> self@.wire_bytes().len() == self@.wire_len(),
    {
        let mut len: usize = 0;
        len = len + write_u8(e, self.into_u8());
        match self {
            AnnouncedNodeAddr::IpV4 { addr, port } => {
                len = len + write_bytes(e, addr.as_slice());
                len = len + write_be16(e, *port);
                Ok(len)
            },
            AnnouncedNodeAddr::IpV6 { addr, port } => {
                len = len + write_bytes(e, addr.as_slice());
                len = len + write_be16(e, *port);
                Ok(len)
            },
            AnnouncedNodeAddr::OnionV2 { addr, port } => {
                len = len + write_bytes(e, addr.as_slice());
                len = len + write_be16(e, *port);
                Ok(len)
            },
            AnnouncedNodeAddr::OnionV3 { ed25519_pubkey, checksum, version, port } => {
                len = len + write_bytes(e, ed25519_pubkey.as_slice());
                if let Some(checksum) = checksum {
                    len = len + write_be16(e, *checksum);
                } else {
                    return Err(Error::DataIntegrityError);
                }
                if let Some(version) = version {
                    len = len + write_u8(e, *version);
                } else {
                    return Err(Error::DataIntegrityError);
                }
                len = len + write_be16(e, *port);
                Ok(len)
            },
        }
    }

    /// The wire form of the address.
    pub fn lightning_serialize(&self) -> (bytes: Vec<u8>)
        requires
            self@.wire_encodable(),
        ensures
            bytes@ == self@.wire_bytes(),
            bytes@.len() == self@.wire_len(),
    {
        let mut encoder: Vec<u8> = Vec::new();
        let _ = self.lightning_encode(&mut encoder);
        encoder
    }

    /// Reads one address from the front of `d`. Bytes after it are left
    /// unread; `wire_len` of the result says where they begin.
    pub fn lightning_decode(d: &[u8]) -> (r: Result<Self, Error>)
        ensures
            match r {
                Ok(a) => wire_decoding(d@) == Ok::<NodeAddrModel, Error>(a@),
                Err(e) => wire_decoding(d@) == Err::<NodeAddrModel, Error>(e),
            },
    {
        let type_byte = match read_u8(d, 0) {
            Ok(b) => b,
            Err(e) => {
                return Err(e);
            },
        };
        match type_byte {
            1u8 => {
                let addr = match read_array::<4>(d, 1) {
                    Ok(a) => a,
                    Err(e) => {
                        return Err(e);
                    },
                };
                let port = match read_be16(d, 5) {
                    Ok(p) => p,
                    Err(e) => {
                        return Err(e);
                    },
                };
                Ok(AnnouncedNodeAddr::IpV4 { addr, port })
            },
            2u8 => {
                let addr = match read_array::<16>(d, 1) {
                    Ok(a) => a,
                    Err(e) => {
                        return Err(e);
                    },
                };
                let port = match read_be16(d, 17) {
                    Ok(p) => p,
                    Err(e) => {
                        return Err(e);
                    },
                };
                Ok(AnnouncedNodeAddr::IpV6 { addr, port })
            },
            3u8 => {
                let addr = match read_array::<10>(d, 1) {
                    Ok(a) => a,
                    Err(e) => {
                        return Err(e);
                    },
                };
                let port = match read_be16(d, 11) {
                    Ok(p) => p,
                    Err(e) => {
                        return Err(e);
                    },
                };
                Ok(AnnouncedNodeAddr::OnionV2 { addr, port })
            },
            4u8 => {
                let ed25519_pubkey = match read_array::<32>(d, 1) {
                    Ok(a) => a,
                    Err(e) => {
                        return Err(e);
                    },
                };
                let checksum = match read_be16(d, 33) {
                    Ok(c) => c,
                    Err(e) => {
                        return Err(e);
                    },
                };
                let version = match read_u8(d, 35) {
                    Ok(v) => v,
                    Err(e) => {
                        return Err(e);
                    },
                };
                let port = match read_be16(d, 36) {
                    Ok(p) => p,
                    Err(e) => {
                        return Err(e);
                    },
                };
                Ok(
                    AnnouncedNodeAddr::OnionV3 {
                        ed25519_pubkey,
                        checksum: Some(checksum),
                        version: Some(version),
                        port,
                    },
                )
            },
            _ => Err(Error::InvalidFormat),
        }
    }

    /// Reads one address that takes up the whole of `data`.
    pub fn lightning_deserialize(data: &[u8]) -> (r: Result<Self, Error>)
        ensures
            match r {
                Ok(a) => wire_decoding(data@) == Ok::<NodeAddrModel, Error>(a@) && data@.len()
                    == a@.wire_len(),
                Err(e) => match wire_decoding(data@) {
                    Ok(m) => e == Error::DataNotEntirelyConsumed && data@.len() != m.wire_len(),
                    Err(f) => e == f,
                },
            },
    {
        let rv = match Self::lightning_decode(data) {
            Ok(a) => a,
            Err(e) => {
                return Err(e);
            },
        };
        if rv.wire_len() == data.len() {
            Ok(rv)
        } else {
            Err(Error::DataNotEntirelyConsumed)
        }
    }
}

/// Two addresses that are the same as models are the same address: what is
/// proved of the model of an address is proved of the address.
pub proof fn lemma_view_injective(a: AnnouncedNodeAddr, b: AnnouncedNodeAddr)
    requires
        a@ == b@,
    ensures
        a == b,
{
    match (a, b) {
        (AnnouncedNodeAddr::IpV4 { addr: x, .. }, AnnouncedNodeAddr::IpV4 { addr: y, .. }) => {
            assert(x =~= y);
        },
        (AnnouncedNodeAddr::IpV6 { addr: x, .. }, AnnouncedNodeAddr::IpV6 { addr: y, .. }) => {
            assert(x =~= y);
        },
        (
            AnnouncedNodeAddr::OnionV2 { addr: x, .. },
            AnnouncedNodeAddr::OnionV2 { addr: y, .. },
        ) => {
            assert(x =~= y);
        },
        (
            AnnouncedNodeAddr::OnionV3 { ed25519_pubkey: x, .. },
            AnnouncedNodeAddr::OnionV3 { ed25519_pubkey: y, .. },
        ) => {
            assert(x =~= y);
        },
        _ => {},
    }
}

/// Decoding the wire form of an address gives the address back, whatever
/// bytes follow the wire form in the input. This holds of every address
/// that has a wire form, in each of the four families.
pub proof fn lemma_wire_round_trip(a: AnnouncedNodeAddr, rest: Seq<u8>)
    requires
        a@.wire_encodable(),
    ensures
        a@.wire_bytes().len() == a@.wire_len(),
        wire_decoding(a@.wire_bytes() + rest) == Ok::<NodeAddrModel, Error>(a@),
{
    let s = a@.wire_bytes() + rest;
    match a@ {
        NodeAddrModel::IpV4 { addr, port } => {
            assert(s.subrange(1, 5) =~= addr);
            assert(s.subrange(5, 7) =~= be16(port));
        },
        NodeAddrModel::IpV6 { addr, port } => {
            assert(s.subrange(1, 17) =~= addr);
            assert(s.subrange(17, 19) =~= be16(port));
        },
        NodeAddrModel::OnionV2 { addr, port } => {
            assert(s.subrange(1, 11) =~= addr);
            assert(s.subrange(11, 13) =~= be16(port));
        },
        NodeAddrModel::OnionV3 { pubkey, checksum, version, port } => {
            assert(s.subrange(1, 33) =~= pubkey);
            assert(s.subrange(33, 35) =~= be16(checksum->0));
            assert(s[35] == version->0);
            assert(s.subrange(36, 38) =~= be16(port));
        },
    }
}

/// What a decoder reads is canonical: the address that it returns has a
/// wire form, and that wire form is the front of the input, byte for byte.
pub proof fn lemma_wire_decoding_canonical(s: Seq<u8>)
    ensures
        match wire_decoding(s) {
            Ok(m) => m.wf() && m.wire_encodable() && m.wire_len() <= s.len() && m.wire_bytes()
                == s.subrange(0, m.wire_len() as int),
            Err(_) => true,
        },
{
    match wire_decoding(s) {
        Ok(NodeAddrModel::IpV4 { .. }) => {
            lemma_from_be16_round_trip(s.subrange(5, 7));
        },
        Ok(NodeAddrModel::IpV6 { .. }) => {
            lemma_from_be16_round_trip(s.subrange(17, 19));
        },
        Ok(NodeAddrModel::OnionV2 { .. }) => {
            lemma_from_be16_round_trip(s.subrange(11, 13));
        },
        Ok(NodeAddrModel::OnionV3 { .. }) => {
            lemma_from_be16_round_trip(s.subrange(33, 35));
            lemma_from_be16_round_trip(s.subrange(36, 38));
        },
        Err(_) => {},
    }
}

} // verus!
