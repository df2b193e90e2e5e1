//! Call contexts: the identities the host has authenticated for each
//! operation.
//!
//! Signature verification itself is the host's business; an operation trusts
//! that the identities named here signed the call, and decides from them
//! alone whether the caller may act.

use vstd::prelude::*;

verus! {

/// Identities behind a registry creation.
#[derive(Clone, Copy, Debug, PartialEq, Eq, Structural)]
pub struct Initialize {
    /// Becomes the registry's administrator.
    pub authority: u64,
    /// Receives protocol fees at every settlement.
    pub treasury: u64,
    /// The only identity the oracle update port will accept reports from.
    pub oracle: u64,
}

/// Identity behind a duel creation.
#[derive(Clone, Copy, Debug, PartialEq, Eq, Structural)]
pub struct CreateDuel {
    pub creator: u64,
}

/// Identity behind an acceptance.
#[derive(Clone, Copy, Debug, PartialEq, Eq, Structural)]
pub struct AcceptDuel {
    pub opponent: u64,
}

/// Identity behind a stake deposit.
#[derive(Clone, Copy, Debug, PartialEq, Eq, Structural)]
pub struct DepositStake {
    pub depositor: u64,
}

/// Identity behind a valuation report.
#[derive(Clone, Copy, Debug, PartialEq, Eq, Structural)]
pub struct UpdatePositions {
    pub oracle: u64,
}

/// Identity behind a settlement trigger; anyone may settle an expired duel.
#[derive(Clone, Copy, Debug, PartialEq, Eq, Structural)]
pub struct SettleDuel {
    pub caller: u64,
}

/// Identity behind a cancellation; only the creator may cancel.
#[derive(Clone, Copy, Debug, PartialEq, Eq, Structural)]
pub struct CancelDuel {
    pub creator: u64,
}

} // verus!
