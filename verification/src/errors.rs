//! The kinds of rejection an operation can report.
//!
//! Every error is detected before any mutation: a rejected call leaves the
//! duel, the registry and the escrow exactly as they were.

use vstd::prelude::*;

verus! {

/// Why an operation refused to run.
#[derive(Clone, Copy, Debug, PartialEq, Eq, Structural)]
pub enum DuelError {
    /// The operation was attempted outside its legal status.
    InvalidStatus,
    /// The duel already has an opponent.
    DuelAlreadyAccepted,
    /// The caller is not a party to the duel.
    NotParticipant,
    /// The trading window has already elapsed.
    DuelExpired,
    /// The trading window has not elapsed yet.
    DuelNotExpired,
    /// Only a pending duel can be cancelled.
    CannotCancel,
    /// The caller's identity does not grant this action.
    Unauthorized,
    /// The participant's stake is already in escrow; a second deposit would
    /// double-charge.
    AlreadyDeposited,
    /// The fee rate exceeds 10000 basis points (100%).
    InvalidFee,
}

} // verus!
