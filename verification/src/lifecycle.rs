//! States in the life of a channel.
//!
//! A channel is negotiated from `Initial` over `Proposed`, `Accepted`,
//! `Funding`, `Signed`, `Funded` and `Locked` to `Active`. An active channel
//! may pass through `Reestablishing` and come back, or close cooperatively
//! over `Shutdown` and `Closing` to `Closed`. `Aborted` is reached from any
//! state by a unilateral close. Which step is taken when is for the state
//! machine of the channel to decide: here are the names of the states.

use vstd::prelude::*;

verus! {

/// State of a channel.
#[derive(Clone, Copy, PartialEq, Eq, PartialOrd, Ord, Hash, Debug)]
#[non_exhaustive]
pub enum Lifecycle {
    /// Nothing has been exchanged yet.
    Initial,
    /// The opening of the channel was sent or received.
    Proposed,
    /// The acceptance of the channel was sent or received.
    Accepted,
    /// One party has signed the funding transaction.
    Funding,
    /// The other party has signed the funding transaction.
    Signed,
    /// The funding transaction is published and not yet mined.
    Funded,
    /// One party has confirmed that the funding transaction is mined.
    Locked,
    /// Both parties have confirmed the lock: the channel is in use.
    Active,
    /// The parties are restoring their connection.
    Reestablishing,
    /// A shutdown is proposed and not yet accepted.
    Shutdown,
    /// The shutdown is agreed and the parties exchange closing fee
    /// proposals.
    Closing {
        /// Number of closing fee proposals exchanged so far.
        round: usize,
    },
    /// The channel was closed cooperatively.
    Closed,
    /// The channel was closed unilaterally.
    Aborted,
}

impl Default for Lifecycle {
    /// The state of a channel of which nothing has been exchanged yet.
    fn default() -> (state: Self)
        ensures
            state == Lifecycle::Initial,
    {
        Lifecycle::Initial
    }
}

} // verus!
