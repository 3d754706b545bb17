//! Roles of the transactions of a channel.

use vstd::prelude::*;

verus! {

/// Numeric code of the HTLC-success role.
pub const HTLC_SUCCESS: u16 = 0;

/// Numeric code of the HTLC-timeout role.
pub const HTLC_TIMEOUT: u16 = 1;

/// Role of a transaction: one of the well-known roles, or a role that is
/// known by its numeric code alone.
#[derive(Clone, Copy, PartialEq, Eq, PartialOrd, Ord, Hash, Debug)]
#[non_exhaustive]
pub enum TxType {
    HtlcSuccess,
    HtlcTimeout,
    Unknown(u16),
}

impl TxType {
    /// The numeric code of the role.
    pub open spec fn code(self) -> u16 {
        match self {
            TxType::HtlcSuccess => HTLC_SUCCESS,
            TxType::HtlcTimeout => HTLC_TIMEOUT,
            TxType::Unknown(x) => x,
        }
    }

    /// The role that the numeric code `code` stands for: the well-known role
    /// that has this code, else the role known by the code alone.
    pub open spec fn with_code(code: u16) -> TxType {
        if code == HTLC_SUCCESS {
            TxType::HtlcSuccess
        } else if code == HTLC_TIMEOUT {
            TxType::HtlcTimeout
        } else {
            TxType::Unknown(code)
        }
    }

    /// No well-known role hides in `Unknown`: the role is the one that its
    /// own code stands for.
    pub open spec fn canonical(self) -> bool {
        match self {
            TxType::Unknown(x) => x != HTLC_SUCCESS && x != HTLC_TIMEOUT,
            _ => true,
        }
    }
}

impl From<TxType> for u16 {
    /// The numeric code of the role.
    fn from(ty: TxType) -> (code: u16) {
        match ty {
            TxType::HtlcSuccess => HTLC_SUCCESS,
            TxType::HtlcTimeout => HTLC_TIMEOUT,
            TxType::Unknown(x) => x,
        }
    }
}

impl vstd::std_specs::convert::FromSpecImpl<TxType> for u16 {
    open spec fn obeys_from_spec() -> bool {
        true
    }

    open spec fn from_spec(ty: TxType) -> u16 {
        ty.code()
    }
}

impl From<u16> for TxType {
    /// The role that the numeric code stands for.
    fn from(ty: u16) -> (role: TxType) {
        if ty == HTLC_SUCCESS {
            TxType::HtlcSuccess
        } else if ty == HTLC_TIMEOUT {
            TxType::HtlcTimeout
        } else {
            TxType::Unknown(ty)
        }
    }
}

impl vstd::std_specs::convert::FromSpecImpl<u16> for TxType {
    open spec fn obeys_from_spec() -> bool {
        true
    }

    open spec fn from_spec(ty: u16) -> TxType {
        TxType::with_code(ty)
    }
}

/// No code is lost: every code is the code of the role it stands for. And
/// a role comes back from its code exactly when it is canonical; the role
/// that a code stands for always is.
pub proof fn lemma_tx_type_round_trip(code: u16, ty: TxType)
    ensures
        TxType::with_code(code).code() == code,
        TxType::with_code(code).canonical(),
        TxType::with_code(ty.code()) == ty <==> ty.canonical(),
{
}

} // verus!
