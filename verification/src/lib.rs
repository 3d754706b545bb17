//! Identity and wire-encoding types of a payment-channel network: channel
//! identifiers, announced node addresses, extension tags and channel
//! lifecycle states, with the byte layouts that peers exchange.

pub mod address_list;
pub mod channel_id;
pub mod codec;
pub mod extension;
pub mod lifecycle;
pub mod node_addr;
pub mod node_info;
pub mod short_channel_id;
pub mod text;
pub mod tx_type;
pub mod uniform;

pub use address_list::AddressList;
pub use channel_id::{ChannelId, TempChannelId};
pub use codec::Error;
pub use extension::ExtensionId;
pub use lifecycle::Lifecycle;
pub use node_addr::AnnouncedNodeAddr;
pub use node_info::{Alias, NodeColor};
pub use short_channel_id::ShortChannelId;
pub use tx_type::TxType;
pub use uniform::{AddrFormat, DecodeError, RawAddr, Transport, UniformAddr, ADDR_LEN};
