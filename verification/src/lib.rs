//! A two-party staked trading competition protocol.
//!
//! Two participants each lock an equal stake in a per-duel escrow, trade for a
//! fixed time window, and the party whose portfolio performed better — as
//! reported by an external valuation oracle — receives the pooled stake minus
//! a protocol fee; a tie refunds both parties minus half the fee each.
//!
//! The crate models the duel lifecycle state machine, the escrow custody
//! arithmetic, and the settlement engine. The host ledger that physically
//! moves funds, creates accounts and supplies the clock is an external
//! collaborator: operations take the current time as an argument and return
//! the transfers the custodian must carry out.

pub mod context;
pub mod errors;
pub mod escrow;
pub mod events;
pub mod ops;
pub mod settlement;
pub mod state;
