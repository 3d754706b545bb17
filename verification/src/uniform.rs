//! The uniform form of an address: one fixed-width slot that holds an
//! address of any family, beside a format tag and an optional port.
//!
//! Each family has its own offset in the slot, so that the address bytes end
//! where the slot ends and the bytes in front of them are zero. The uniform
//! form has no room for the checksum and version of a Tor v3 address: an
//! address read back from it has neither.

use crate::codec::{copy_array, zeros};
use crate::node_addr::{AnnouncedNodeAddr, NodeAddrModel};
use vstd::prelude::*;

verus! {

/// Width in bytes of the slot that holds the address of a host.
pub const ADDR_LEN: usize = 33;

/// The slot that holds the address of a host.
pub type RawAddr = [u8; ADDR_LEN];

/// Offset of an IPv4 address in the slot.
pub const OFFSET_IPV4: usize = 29;

/// Offset of an IPv6 address in the slot.
pub const OFFSET_IPV6: usize = 17;

/// Offset of a Tor v2 address in the slot.
pub const OFFSET_ONION_V2: usize = 23;

/// Offset of the public key of a Tor v3 address in the slot.
pub const OFFSET_ONION_V3: usize = 1;

/// Failures of reading an address from its uniform form.
#[derive(Clone, Copy, Debug, PartialEq, Eq, Hash)]
pub enum DecodeError {
    /// The format tag names no family that an announced address can have.
    InvalidAddr,
    /// The uniform form lacks a part that the address needs.
    InsufficientData,
}

/// Format of the address that a slot holds.
#[derive(Clone, Copy, Debug, PartialEq, Eq, Hash, PartialOrd, Ord)]
pub enum AddrFormat {
    /// IPv4 address.
    IpV4,
    /// IPv6 address.
    IpV6,
    /// Tor v2 onion address.
    OnionV2,
    /// Tor v3 onion address.
    OnionV3,
    /// Address of a node by its public key.
    Lightning,
}

/// Transport protocol of a uniform address.
#[derive(Clone, Copy, Debug, PartialEq, Eq, Hash, PartialOrd, Ord)]
pub enum Transport {
    /// TCP.
    Tcp,
    /// UDP.
    Udp,
    /// Multi-path TCP.
    Mtcp,
    /// QUIC.
    Quic,
}

/// An address in uniform form.
#[derive(Clone, Copy, Debug, PartialEq, Eq, Hash, PartialOrd, Ord)]
pub struct UniformAddr {
    /// Format of the address in the slot.
    pub addr_format: AddrFormat,
    /// The slot.
    pub addr: RawAddr,
    /// The port, where there is one.
    pub port: Option<u16>,
    /// The transport protocol, where one is named.
    pub transport: Option<Transport>,
}

impl NodeAddrModel {
    /// The format tag of the uniform form.
    pub open spec fn addr_format(self) -> AddrFormat {
        match self {
            NodeAddrModel::IpV4 { .. } => AddrFormat::IpV4,
            NodeAddrModel::IpV6 { .. } => AddrFormat::IpV6,
            NodeAddrModel::OnionV2 { .. } => AddrFormat::OnionV2,
            NodeAddrModel::OnionV3 { .. } => AddrFormat::OnionV3,
        }
    }

    /// The bytes that name the host: the address, or for Tor v3 the public
    /// key.
    pub open spec fn host_bytes(self) -> Seq<u8> {
        match self {
            NodeAddrModel::IpV4 { addr, .. } => addr,
            NodeAddrModel::IpV6 { addr, .. } => addr,
            NodeAddrModel::OnionV2 { addr, .. } => addr,
            NodeAddrModel::OnionV3 { pubkey, .. } => pubkey,
        }
    }

    /// The slot of the uniform form: the host bytes at the end, zero bytes
    /// in front of them.
    pub open spec fn raw_addr(self) -> Seq<u8>
        recommends
            self.wf(),
    {
        zeros((ADDR_LEN - self.host_bytes().len()) as nat) + self.host_bytes()
    }

    /// The address without what the uniform form cannot carry: a Tor v3
    /// address loses checksum and version, any other is unchanged.
    pub open spec fn without_onion_extras(self) -> NodeAddrModel {
        match self {
            NodeAddrModel::OnionV3 { pubkey, port, .. } => NodeAddrModel::OnionV3 {
                pubkey,
                checksum: None,
                version: None,
                port,
            },
            _ => self,
        }
    }
}

/// The address that the uniform form `(format, raw, port)` stands for, or
/// the failure of reading it: a format that no announced address has is
/// `InvalidAddr`, a missing port is `InsufficientData`.
pub open spec fn uniform_decoding(format: AddrFormat, raw: Seq<u8>, port: Option<u16>) -> Result<
    NodeAddrModel,
    DecodeError,
>
    recommends
        raw.len() == ADDR_LEN,
{
    if format == AddrFormat::Lightning {
        Err(DecodeError::InvalidAddr)
    } else {
        match port {
            None => Err(DecodeError::InsufficientData),
            Some(p) => Ok(
                match format {
                    AddrFormat::IpV4 => NodeAddrModel::IpV4 {
                        addr: raw.subrange(OFFSET_IPV4 as int, ADDR_LEN as int),
                        port: p,
                    },
                    AddrFormat::IpV6 => NodeAddrModel::IpV6 {
                        addr: raw.subrange(OFFSET_IPV6 as int, ADDR_LEN as int),
                        port: p,
                    },
                    AddrFormat::OnionV2 => NodeAddrModel::OnionV2 {
                        addr: raw.subrange(OFFSET_ONION_V2 as int, ADDR_LEN as int),
                        port: p,
                    },
                    _ => NodeAddrModel::OnionV3 {
                        pubkey: raw.subrange(OFFSET_ONION_V3 as int, ADDR_LEN as int),
                        checksum: None,
                        version: None,
                        port: p,
                    },
                },
            ),
        }
    }
}

/// Puts the `N` bytes of `src` at the end of an otherwise zero slot.
fn place<const N: usize>(src: &[u8; N], offset: usize) -> (raw: RawAddr)
    requires
        offset + N == ADDR_LEN,
    ensures
        raw@ == zeros(offset as nat) + src@,
{
    let mut raw: RawAddr = [0u8; ADDR_LEN];
    let mut i: usize = 0;
    while i < N
        invariant
            i <= N,
            offset + N == ADDR_LEN,
            forall|j: int| 0 <= j < offset + i ==> raw@[j] == (zeros(offset as nat) + src@)[j],
            forall|j: int| offset + i <= j < ADDR_LEN ==> raw@[j] == 0u8,
        decreases N - i,
    {
        raw[offset + i] = src[i];
        i = i + 1;
    }
    assert(raw@ =~= zeros(offset as nat) + src@);
    raw
}

impl AnnouncedNodeAddr {
    /// The format tag of the uniform form of the address.
    pub fn addr_format(&self) -> (format: AddrFormat)
        ensures
            format == self@.addr_format(),
    {
        match self {
            AnnouncedNodeAddr::IpV4 { .. } => AddrFormat::IpV4,
            AnnouncedNodeAddr::IpV6 { .. } => AddrFormat::IpV6,
            AnnouncedNodeAddr::OnionV2 { .. } => AddrFormat::OnionV2,
            AnnouncedNodeAddr::OnionV3 { .. } => AddrFormat::OnionV3,
        }
    }

    /// The slot of the uniform form of the address.
    pub fn addr(&self) -> (raw: RawAddr)
        ensures
            raw@ == self@.raw_addr(),
    {
        match self {
            AnnouncedNodeAddr::IpV4 { addr, .. } => place::<4>(addr, OFFSET_IPV4),
            AnnouncedNodeAddr::IpV6 { addr, .. } => place::<16>(addr, OFFSET_IPV6),
            AnnouncedNodeAddr::OnionV2 { addr, .. } => place::<10>(addr, OFFSET_ONION_V2),
            AnnouncedNodeAddr::OnionV3 { ed25519_pubkey, .. } => place::<32>(
                ed25519_pubkey,
                OFFSET_ONION_V3,
            ),
        }
    }

    /// The port of the address. Every announced address has one.
    pub fn port(&self) -> (port: Option<u16>)
        ensures
            port == Some(self@.port()),
    {
        match self {
            AnnouncedNodeAddr::IpV4 { port, .. } => Some(*port),
            AnnouncedNodeAddr::IpV6 { port, .. } => Some(*port),
            AnnouncedNodeAddr::OnionV2 { port, .. } => Some(*port),
            AnnouncedNodeAddr::OnionV3 { port, .. } => Some(*port),
        }
    }

    /// The transport protocol of the address: an announced address names
    /// none.
    pub fn transport(&self) -> (transport: Option<Transport>)
        ensures
            transport is None,
    {
        None
    }

    /// The uniform form of the address.
    pub fn to_uniform_addr(&self) -> (uniform: UniformAddr)
        ensures
            uniform.addr_format == self@.addr_format(),
            uniform.addr@ == self@.raw_addr(),
            uniform.port == Some(self@.port()),
            uniform.transport is None,
    {
        UniformAddr {
            addr_format: self.addr_format(),
            addr: self.addr(),
            port: self.port(),
            transport: self.transport(),
        }
    }

    /// Reads an address from its uniform form. What the uniform form holds
    /// beyond the address, such as a transport protocol, is dropped.
    pub fn from_uniform_addr_lossy(addr: UniformAddr) -> (r: Result<Self, DecodeError>)
        ensures
            match r {
                Ok(a) => uniform_decoding(addr.addr_format, addr.addr@, addr.port) == Ok::<
                    NodeAddrModel,
                    DecodeError,
                >(a@),
                Err(e) => uniform_decoding(addr.addr_format, addr.addr@, addr.port) == Err::<
                    NodeAddrModel,
                    DecodeError,
                >(e),
            },
    {
        match addr.addr_format {
            AddrFormat::IpV4 => {
                let ip = copy_array::<4>(addr.addr.as_slice(), OFFSET_IPV4);
                match addr.port {
                    Some(p) => Ok(AnnouncedNodeAddr::IpV4 { addr: ip, port: p }),
                    None => Err(DecodeError::InsufficientData),
                }
            },
            AddrFormat::IpV6 => {
                let ip = copy_array::<16>(addr.addr.as_slice(), OFFSET_IPV6);
                match addr.port {
                    Some(p) => Ok(AnnouncedNodeAddr::IpV6 { addr: ip, port: p }),
                    None => Err(DecodeError::InsufficientData),
                }
            },
            AddrFormat::OnionV2 => {
                let ip = copy_array::<10>(addr.addr.as_slice(), OFFSET_ONION_V2);
                match addr.port {
                    Some(p) => Ok(AnnouncedNodeAddr::OnionV2 { addr: ip, port: p }),
                    None => Err(DecodeError::InsufficientData),
                }
            },
            AddrFormat::OnionV3 => {
                let ip = copy_array::<32>(addr.addr.as_slice(), OFFSET_ONION_V3);
                match addr.port {
                    Some(p) => Ok(
                        AnnouncedNodeAddr::OnionV3 {
                            ed25519_pubkey: ip,
                            checksum: None,
                            version: None,
                            port: p,
                        },
                    ),
                    None => Err(DecodeError::InsufficientData),
                }
            },
            _ => Err(DecodeError::InvalidAddr),
        }
    }

    /// Reads an address from its uniform form, as `from_uniform_addr_lossy`
    /// does.
    pub fn from_uniform_addr(addr: UniformAddr) -> (r: Result<Self, DecodeError>)
        ensures
            match r {
                Ok(a) => uniform_decoding(addr.addr_format, addr.addr@, addr.port) == Ok::<
                    NodeAddrModel,
                    DecodeError,
                >(a@),
                Err(e) => uniform_decoding(addr.addr_format, addr.addr@, addr.port) == Err::<
                    NodeAddrModel,
                    DecodeError,
                >(e),
            },
    {
        AnnouncedNodeAddr::from_uniform_addr_lossy(addr)
    }
}

/// An address that is put into uniform form and read back is the address
/// itself, but for a Tor v3 address, which comes back without checksum and
/// version, whatever they were: public key and port are kept.
pub proof fn lemma_uniform_round_trip(a: AnnouncedNodeAddr)
    ensures
        uniform_decoding(a@.addr_format(), a@.raw_addr(), Some(a@.port())) == Ok::<
            NodeAddrModel,
            DecodeError,
        >(a@.without_onion_extras()),
        !(a is OnionV3) ==> a@.without_onion_extras() == a@,
        a is OnionV3 ==> a@.without_onion_extras() == (NodeAddrModel::OnionV3 {
            pubkey: a->ed25519_pubkey@,
            checksum: None,
            version: None,
            port: a->OnionV3_port,
        }),
{
    let m = a@;
    let raw = m.raw_addr();
    let host = m.host_bytes();
    assert(raw.subrange(ADDR_LEN - host.len(), ADDR_LEN as int) =~= host);
}

} // verus!
