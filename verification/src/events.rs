//! Notifications an operation hands back for the host to publish.

use vstd::prelude::*;

use crate::state::DuelWinner;

verus! {

/// Emitted whenever the oracle overwrites the two portfolio valuations.
#[derive(Clone, Copy, Debug, PartialEq, Eq, Structural)]
pub struct PositionUpdate {
    /// The duel's uniqueness key.
    pub duel: u64,
    pub creator_value: u64,
    pub opponent_value: u64,
    pub timestamp: i64,
}

/// Emitted once, when a duel settles.
#[derive(Clone, Copy, Debug, PartialEq, Eq, Structural)]
pub struct DuelSettled {
    /// The duel's uniqueness key.
    pub duel: u64,
    pub winner: DuelWinner,
    /// Both profit-and-loss figures, in basis points.
    pub creator_pnl: i128,
    pub opponent_pnl: i128,
    /// The pooled stake minus the nominal protocol fee.
    pub winner_payout: u64,
    /// The nominal protocol fee; on a draw the treasury receives this rounded
    /// down to an even amount.
    pub protocol_fee: u64,
}

} // verus!
