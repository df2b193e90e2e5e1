//! Persisted records: the protocol registry and one duel per competition.

use vstd::prelude::*;

verus! {

/// Largest stake a duel may be created with: the pooled total of two such
/// stakes must still fit in a `u64`.
pub const MAX_STAKE: u64 = u64::MAX / 2;

/// A counter's value after adding `b`, clamped at the top of `u64`.
pub open spec fn sat_add_u64(a: int, b: int) -> int {
    if a + b > u64::MAX {
        u64::MAX as int
    } else {
        a + b
    }
}

/// Where a duel stands in its life: strictly forward-moving, never revisited.
/// The only legal edges are `Pending -> Accepted`, `Pending -> Cancelled`,
/// `Accepted -> Active` and `Active -> Settled`.
#[derive(Clone, Copy, Debug, PartialEq, Eq, Structural)]
pub enum DuelStatus {
    Pending,
    Accepted,
    Active,
    Settled,
    Cancelled,
}

/// The settlement verdict; `NoWinner` until the duel is settled.
#[derive(Clone, Copy, Debug, PartialEq, Eq, Structural)]
pub enum DuelWinner {
    NoWinner,
    Creator,
    Opponent,
    Draw,
}

/// The singleton registry: global configuration and running totals.
#[derive(Clone, Copy, Debug, PartialEq, Eq, Structural)]
pub struct Protocol {
    /// Identity permitted to administer the registry.
    pub authority: u64,
    /// Identity that receives protocol fees.
    pub treasury: u64,
    /// Identity whose reports the oracle update port accepts.
    pub oracle_authority: u64,
    /// Fee rate in basis points (100 = 1%); at most 10000.
    pub fee_bps: u16,
    /// Monotonically incrementing counter, also the uniqueness key for new
    /// duels.
    pub total_duels: u64,
    /// Cumulative sum of settled pooled stakes.
    pub total_volume: u64,
}

impl Protocol {
    /// The registry's invariant: the fee rate never exceeds 100%.
    pub open spec fn wf(self) -> bool {
        self.fee_bps <= 10000
    }

    /// Takes the uniqueness key for a new duel and advances the counter.
    pub fn record_duel_created(&mut self) -> (id: u64)
        ensures
            id == old(self).total_duels,
            *final(self) == (Protocol {
                total_duels: sat_add_u64(old(self).total_duels as int, 1) as u64,
                ..*old(self)
            }),
    {
        let id: u64 = self.total_duels;
        if self.total_duels < u64::MAX {
            self.total_duels = self.total_duels + 1;
        }
        id
    }

    /// Adds a settled duel's pooled stake to the cumulative volume.
    pub fn record_settlement(&mut self, pooled_stake: u64)
        ensures
            *final(self) == (Protocol {
                total_volume: sat_add_u64(
                    old(self).total_volume as int,
                    pooled_stake as int,
                ) as u64,
                ..*old(self)
            }),
    {
        if pooled_stake <= u64::MAX - self.total_volume {
            self.total_volume = self.total_volume + pooled_stake;
        } else {
            self.total_volume = u64::MAX;
        }
    }
}

/// One competition instance.
#[derive(Debug)]
pub struct Duel {
    /// Uniqueness key, taken from the registry counter at creation.
    pub id: u64,
    /// Identity that opened the duel.
    pub creator: u64,
    /// Identity that accepted the duel; unset until accepted.
    pub opponent: Option<u64>,
    /// The amount each party must deposit; fixed at creation.
    pub stake_amount: u64,
    /// Clock reading when the duel was created.
    pub created_at: i64,
    /// Clock reading at activation; zero until then.
    pub start_time: i64,
    /// `start_time + duration` once active; zero until then.
    pub end_time: i64,
    /// Length of the trading window, in clock units.
    pub duration: i64,
    pub status: DuelStatus,
    pub winner: DuelWinner,
    /// Set exactly once, when the creator's stake reaches escrow.
    pub creator_stake_deposited: bool,
    /// Set exactly once, when the opponent's stake reaches escrow.
    pub opponent_stake_deposited: bool,
    /// Whitelist of asset identifiers the duel restricts itself to
    /// (informational; stored, not enforced).
    pub allowed_tokens: Vec<u64>,
    /// Portfolio value at activation; equal to the stake for both parties.
    pub creator_starting_value: u64,
    pub opponent_starting_value: u64,
    /// Last valuation the oracle reported while the duel was active.
    pub creator_final_value: u64,
    pub opponent_final_value: u64,
}

impl Duel {
    /// Is the status one that an opponent has already joined?
    pub open spec fn has_opponent_status(self) -> bool {
        self.status is Accepted || self.status is Active || self.status is Settled
    }

    /// No further operation may mutate a settled or cancelled duel.
    pub open spec fn is_terminal(self) -> bool {
        self.status is Settled || self.status is Cancelled
    }

    /// The duel record's invariant, established at creation and preserved by
    /// every operation.
    pub open spec fn wf(self) -> bool {
        &&& 0 < self.stake_amount <= MAX_STAKE
        &&& 0 < self.duration
        &&& (self.opponent is Some <==> self.has_opponent_status())
        &&& ((self.creator_stake_deposited || self.opponent_stake_deposited)
            ==> self.has_opponent_status())
        &&& ((self.status is Active || self.status is Settled) ==> {
            &&& self.creator_stake_deposited
            &&& self.opponent_stake_deposited
            &&& self.end_time == self.start_time + self.duration
            &&& self.creator_starting_value == self.stake_amount
            &&& self.opponent_starting_value == self.stake_amount
        })
        &&& (self.winner is NoWinner <==> !(self.status is Settled))
    }
}

} // verus!
