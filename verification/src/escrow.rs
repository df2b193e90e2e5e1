//! The escrow custodian: one isolated balance per duel.
//!
//! The custodian only tracks value; the host ledger performs the physical
//! movement. `deposit` records a stake arriving, `disburse` records value
//! leaving and hands back the transfer the ledger must execute. Across a
//! duel's life, the sum of all disbursements equals the sum of all prior
//! deposits: after settlement the balance is exactly zero.

use vstd::prelude::*;

use crate::state::Duel;

verus! {

/// An instruction to the host ledger: move `amount` out of a duel's escrow
/// to `to`.
#[derive(Clone, Copy, Debug, PartialEq, Eq, Structural)]
pub struct Transfer {
    pub to: u64,
    pub amount: u64,
}

/// The custodial balance held for one duel, addressed by the duel's
/// uniqueness key.
#[derive(Clone, Copy, Debug, PartialEq, Eq, Structural)]
pub struct Escrow {
    pub duel_id: u64,
    pub balance: u64,
}

/// The escrowed balance a duel's record calls for: the sum of the deposits
/// made so far, and exactly zero once settled.
pub open spec fn expected_escrow_balance(duel: Duel) -> int {
    if duel.status is Settled {
        0
    } else {
        (if duel.creator_stake_deposited {
            duel.stake_amount as int
        } else {
            0
        }) + (if duel.opponent_stake_deposited {
            duel.stake_amount as int
        } else {
            0
        })
    }
}

/// The escrow belongs to the duel and holds exactly what the duel's record
/// calls for.
pub open spec fn escrow_matches(duel: Duel, escrow: Escrow) -> bool {
    &&& escrow.duel_id == duel.id
    &&& escrow.balance == expected_escrow_balance(duel)
}

impl Escrow {
    /// Opens the empty escrow for a freshly created duel.
    pub fn new(duel_id: u64) -> (e: Escrow)
        ensures
            e.duel_id == duel_id,
            e.balance == 0,
    {
        Escrow { duel_id, balance: 0 }
    }

    /// Records `amount` arriving from a payer's external balance.
    pub fn deposit(&mut self, amount: u64)
        requires
            old(self).balance + amount <= u64::MAX,
        ensures
            *final(self) == (Escrow {
                balance: (old(self).balance + amount) as u64,
                ..*old(self)
            }),
    {
        self.balance = self.balance + amount;
    }

    /// Records `amount` leaving for `recipient`; never more than the escrow
    /// holds.
    pub fn disburse(&mut self, recipient: u64, amount: u64) -> (t: Transfer)
        requires
            amount <= old(self).balance,
        ensures
            *final(self) == (Escrow {
                balance: (old(self).balance - amount) as u64,
                ..*old(self)
            }),
            t == (Transfer { to: recipient, amount }),
    {
        self.balance = self.balance - amount;
        Transfer { to: recipient, amount }
    }
}

} // verus!
