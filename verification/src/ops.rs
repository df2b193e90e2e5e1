//! The operation surface: the duel lifecycle state machine, the oracle
//! update port, and settlement.
//!
//! Every operation is an atomic unit against explicit state: it either fully
//! succeeds — state transition, escrow movement and notification together —
//! or rejects with a specific error and changes nothing. The host supplies
//! the clock reading `now` and executes the returned transfers.

use vstd::prelude::*;

use crate::context::AcceptDuel;
use crate::context::CancelDuel;
use crate::context::CreateDuel;
use crate::context::DepositStake;
use crate::context::Initialize;
use crate::context::SettleDuel;
use crate::context::UpdatePositions;
use crate::errors::DuelError;
use crate::escrow::escrow_matches;
use crate::escrow::Escrow;
use crate::escrow::Transfer;
use crate::events::DuelSettled;
use crate::events::PositionUpdate;
use crate::settlement::calculate_pnl;
use crate::settlement::compute_protocol_fee;
use crate::settlement::decide_winner;
use crate::settlement::draw_fee_of;
use crate::settlement::draw_refund_of;
use crate::settlement::lemma_draw_settlement_conserves_pool;
use crate::settlement::lemma_fee_bounds;
use crate::settlement::pnl_bps;
use crate::settlement::protocol_fee_of;
use crate::settlement::winner_of;
use crate::settlement::winner_payout_of;
use crate::state::sat_add_u64;
use crate::state::Duel;
use crate::state::DuelStatus;
use crate::state::DuelWinner;
use crate::state::Protocol;
use crate::state::MAX_STAKE;

verus! {

/// Does `depositor` deposit in the creator's role? The creator's role takes
/// precedence when one identity fills both seats.
pub open spec fn deposits_as_creator(duel: Duel, depositor: u64) -> bool {
    depositor == duel.creator
}

/// Does `depositor` deposit in the opponent's role?
pub open spec fn deposits_as_opponent(duel: Duel, depositor: u64) -> bool {
    depositor != duel.creator && duel.opponent == Some(depositor)
}

/// The duel record after a successful deposit: the depositor's flag set, and,
/// once both stakes are in, the transition to `Active` with the time window
/// stamped and both starting values snapshotted at the stake.
pub open spec fn after_deposit(pre: Duel, creator_role: bool, now: i64) -> Duel {
    let marked = if creator_role {
        Duel { creator_stake_deposited: true, ..pre }
    } else {
        Duel { opponent_stake_deposited: true, ..pre }
    };
    if marked.creator_stake_deposited && marked.opponent_stake_deposited {
        Duel {
            status: DuelStatus::Active,
            start_time: now,
            end_time: (now + pre.duration) as i64,
            creator_starting_value: pre.stake_amount,
            opponent_starting_value: pre.stake_amount,
            ..marked
        }
    } else {
        marked
    }
}

/// Creates the singleton registry with zeroed counters. The fee rate is
/// rejected beyond 10000 basis points: the fee may never exceed the pool.
pub fn initialize(ctx: &Initialize, protocol_fee_bps: u16) -> (r: Result<Protocol, DuelError>)
    ensures
        protocol_fee_bps > 10000 ==> r == Err::<Protocol, DuelError>(DuelError::InvalidFee),
        protocol_fee_bps <= 10000 ==> (r == Ok::<Protocol, DuelError>(Protocol {
            authority: ctx.authority,
            treasury: ctx.treasury,
            oracle_authority: ctx.oracle,
            fee_bps: protocol_fee_bps,
            total_duels: 0,
            total_volume: 0,
        })),
        r matches Ok(p) ==> p.wf(),
{
    if protocol_fee_bps > 10000 {
        return Err(DuelError::InvalidFee);
    }
    Ok(Protocol {
        authority: ctx.authority,
        treasury: ctx.treasury,
        oracle_authority: ctx.oracle,
        fee_bps: protocol_fee_bps,
        total_duels: 0,
        total_volume: 0,
    })
}

/// Opens a duel in `Pending` status and advances the registry counter, whose
/// prior value becomes the duel's uniqueness key. The stake must be positive
/// and small enough for the pooled total to fit the ledger's word; the
/// trading window must have positive length.
pub fn create_duel(
    ctx: &CreateDuel,
    protocol: &mut Protocol,
    stake_amount: u64,
    duration_seconds: i64,
    allowed_tokens: Vec<u64>,
    now: i64,
) -> (duel: Duel)
    requires
        0 < stake_amount <= MAX_STAKE,
        0 < duration_seconds,
    ensures
        duel.wf(),
        duel == (Duel {
            id: old(protocol).total_duels,
            creator: ctx.creator,
            opponent: None,
            stake_amount,
            created_at: now,
            start_time: 0,
            end_time: 0,
            duration: duration_seconds,
            status: DuelStatus::Pending,
            winner: DuelWinner::NoWinner,
            creator_stake_deposited: false,
            opponent_stake_deposited: false,
            allowed_tokens,
            creator_starting_value: 0,
            opponent_starting_value: 0,
            creator_final_value: 0,
            opponent_final_value: 0,
        }),
        *final(protocol) == (Protocol {
            total_duels: sat_add_u64(old(protocol).total_duels as int, 1) as u64,
            ..*old(protocol)
        }),
{
    let id: u64 = protocol.record_duel_created();
    Duel {
        id,
        creator: ctx.creator,
        opponent: None,
        stake_amount,
        created_at: now,
        start_time: 0,
        end_time: 0,
        duration: duration_seconds,
        status: DuelStatus::Pending,
        winner: DuelWinner::NoWinner,
        creator_stake_deposited: false,
        opponent_stake_deposited: false,
        allowed_tokens,
        creator_starting_value: 0,
        opponent_starting_value: 0,
        creator_final_value: 0,
        opponent_final_value: 0,
    }
}

/// Fills the opponent seat of a pending duel and moves it to `Accepted`.
/// A duel that already has an opponent rejects with `DuelAlreadyAccepted`;
/// any other status rejects with `InvalidStatus`. A terminal duel is never
/// mutated.
pub fn accept_duel(ctx: &AcceptDuel, duel: &mut Duel) -> (r: Result<(), DuelError>)
    requires
        old(duel).wf(),
    ensures
        final(duel).wf(),
        old(duel).opponent is Some
            ==> (r == Err::<(), DuelError>(DuelError::DuelAlreadyAccepted)
                && *final(duel) == *old(duel)),
        old(duel).opponent is None && !(old(duel).status is Pending)
            ==> (r == Err::<(), DuelError>(DuelError::InvalidStatus)
                && *final(duel) == *old(duel)),
        old(duel).opponent is None && old(duel).status is Pending
            ==> (r == Ok::<(), DuelError>(()) && *final(duel) == (Duel {
                opponent: Some(ctx.opponent),
                status: DuelStatus::Accepted,
                ..*old(duel)
            })),
        old(duel).is_terminal() ==> (r is Err && *final(duel) == *old(duel)),
{
    match duel.opponent {
        Some(_) => {
            return Err(DuelError::DuelAlreadyAccepted);
        },
        None => {},
    }
    if duel.status != DuelStatus::Pending {
        return Err(DuelError::InvalidStatus);
    }
    duel.opponent = Some(ctx.opponent);
    duel.status = DuelStatus::Accepted;
    Ok(())
}

/// Cancels a pending duel. Only the creator may cancel, and only before the
/// duel is accepted; a terminal duel is never mutated.
pub fn cancel_duel(ctx: &CancelDuel, duel: &mut Duel) -> (r: Result<(), DuelError>)
    requires
        old(duel).wf(),
    ensures
        final(duel).wf(),
        !(old(duel).status is Pending)
            ==> (r == Err::<(), DuelError>(DuelError::CannotCancel)
                && *final(duel) == *old(duel)),
        old(duel).status is Pending && ctx.creator != old(duel).creator
            ==> (r == Err::<(), DuelError>(DuelError::Unauthorized)
                && *final(duel) == *old(duel)),
        old(duel).status is Pending && ctx.creator == old(duel).creator
            ==> (r == Ok::<(), DuelError>(())
                && *final(duel) == (Duel { status: DuelStatus::Cancelled, ..*old(duel) })),
        old(duel).is_terminal() ==> (r is Err && *final(duel) == *old(duel)),
{
    if duel.status != DuelStatus::Pending {
        return Err(DuelError::CannotCancel);
    }
    if ctx.creator != duel.creator {
        return Err(DuelError::Unauthorized);
    }
    duel.status = DuelStatus::Cancelled;
    Ok(())
}

/// Moves one participant's stake into escrow. Legal only while `Accepted`;
/// the depositor must be the creator or the opponent, and each seat deposits
/// exactly once — a second deposit rejects with `AlreadyDeposited` rather
/// than double-charging. When the second stake arrives the duel becomes
/// `Active`: the window is stamped from `now` and both starting values are
/// snapshotted at the stake.
pub fn deposit_stake(
    ctx: &DepositStake,
    duel: &mut Duel,
    escrow: &mut Escrow,
    now: i64,
) -> (r: Result<(), DuelError>)
    requires
        old(duel).wf(),
        escrow_matches(*old(duel), *old(escrow)),
        now + old(duel).duration <= i64::MAX,
    ensures
        final(duel).wf(),
        escrow_matches(*final(duel), *final(escrow)),
        r is Err ==> (*final(duel) == *old(duel) && *final(escrow) == *old(escrow)),
        !(old(duel).status is Accepted) ==> r == Err::<(), DuelError>(DuelError::InvalidStatus),
        old(duel).status is Accepted && !deposits_as_creator(*old(duel), ctx.depositor)
            && !deposits_as_opponent(*old(duel), ctx.depositor) ==> r == Err::<(), DuelError>(
            DuelError::NotParticipant,
        ),
        old(duel).status is Accepted && deposits_as_creator(*old(duel), ctx.depositor)
            && old(duel).creator_stake_deposited ==> r == Err::<(), DuelError>(
            DuelError::AlreadyDeposited,
        ),
        old(duel).status is Accepted && deposits_as_opponent(*old(duel), ctx.depositor)
            && old(duel).opponent_stake_deposited ==> r == Err::<(), DuelError>(
            DuelError::AlreadyDeposited,
        ),
        old(duel).status is Accepted && deposits_as_creator(*old(duel), ctx.depositor)
            && !old(duel).creator_stake_deposited ==> (r == Ok::<(), DuelError>(())
            && *final(duel) == after_deposit(*old(duel), true, now)),
        old(duel).status is Accepted && deposits_as_opponent(*old(duel), ctx.depositor)
            && !old(duel).opponent_stake_deposited ==> (r == Ok::<(), DuelError>(())
            && *final(duel) == after_deposit(*old(duel), false, now)),
        r is Ok ==> final(escrow).balance == old(escrow).balance + old(duel).stake_amount,
        old(duel).is_terminal() ==> (r is Err && *final(duel) == *old(duel)),
{
    if duel.status != DuelStatus::Accepted {
        return Err(DuelError::InvalidStatus);
    }
    let is_creator: bool = ctx.depositor == duel.creator;
    let is_opponent: bool = !is_creator && match duel.opponent {
        Some(o) => o == ctx.depositor,
        None => false,
    };
    if !is_creator && !is_opponent {
        return Err(DuelError::NotParticipant);
    }
    if is_creator && duel.creator_stake_deposited {
        return Err(DuelError::AlreadyDeposited);
    }
    if is_opponent && duel.opponent_stake_deposited {
        return Err(DuelError::AlreadyDeposited);
    }
    escrow.deposit(duel.stake_amount);
    if is_creator {
        duel.creator_stake_deposited = true;
    } else {
        duel.opponent_stake_deposited = true;
    }
    if duel.creator_stake_deposited && duel.opponent_stake_deposited {
        duel.status = DuelStatus::Active;
        duel.start_time = now;
        duel.end_time = now + duel.duration;
        duel.creator_starting_value = duel.stake_amount;
        duel.opponent_starting_value = duel.stake_amount;
    }
    Ok(())
}

/// The oracle update port: overwrites both final portfolio values while the
/// duel is active and the window has not elapsed. Only the registry's oracle
/// authority may report; last write wins. Returns the notification to
/// publish.
pub fn update_positions(
    ctx: &UpdatePositions,
    duel: &mut Duel,
    protocol: &Protocol,
    creator_value: u64,
    opponent_value: u64,
    now: i64,
) -> (r: Result<PositionUpdate, DuelError>)
    requires
        old(duel).wf(),
    ensures
        final(duel).wf(),
        r is Err ==> *final(duel) == *old(duel),
        !(old(duel).status is Active) ==> r == Err::<PositionUpdate, DuelError>(
            DuelError::InvalidStatus,
        ),
        old(duel).status is Active && ctx.oracle != protocol.oracle_authority
            ==> r == Err::<PositionUpdate, DuelError>(DuelError::Unauthorized),
        old(duel).status is Active && ctx.oracle == protocol.oracle_authority
            && now > old(duel).end_time ==> r == Err::<PositionUpdate, DuelError>(
            DuelError::DuelExpired,
        ),
        old(duel).status is Active && ctx.oracle == protocol.oracle_authority
            && now <= old(duel).end_time ==> (r == Ok::<PositionUpdate, DuelError>(PositionUpdate {
            duel: old(duel).id,
            creator_value,
            opponent_value,
            timestamp: now,
        }) && *final(duel) == (Duel {
            creator_final_value: creator_value,
            opponent_final_value: opponent_value,
            ..*old(duel)
        })),
        old(duel).is_terminal() ==> (r is Err && *final(duel) == *old(duel)),
{
    if duel.status != DuelStatus::Active {
        return Err(DuelError::InvalidStatus);
    }
    if ctx.oracle != protocol.oracle_authority {
        return Err(DuelError::Unauthorized);
    }
    if now > duel.end_time {
        return Err(DuelError::DuelExpired);
    }
    duel.creator_final_value = creator_value;
    duel.opponent_final_value = opponent_value;
    Ok(PositionUpdate { duel: duel.id, creator_value, opponent_value, timestamp: now })
}

/// Settles an active duel once its window has elapsed: computes both
/// profit-and-loss figures, determines the winner, disburses the whole
/// escrow — fee to the treasury, then payout or refunds — marks the duel
/// `Settled`, adds the pooled stake to the registry volume, and returns the
/// notification together with the transfers the ledger must execute. The
/// escrow ends empty; a rejected call changes nothing.
pub fn settle_duel(
    ctx: &SettleDuel,
    duel: &mut Duel,
    protocol: &mut Protocol,
    escrow: &mut Escrow,
    now: i64,
) -> (r: Result<(DuelSettled, Vec<Transfer>), DuelError>)
    requires
        old(duel).wf(),
        old(protocol).wf(),
        escrow_matches(*old(duel), *old(escrow)),
    ensures
        final(duel).wf(),
        final(protocol).wf(),
        escrow_matches(*final(duel), *final(escrow)),
        r is Err ==> (*final(duel) == *old(duel) && *final(protocol) == *old(protocol)
            && *final(escrow) == *old(escrow)),
        !(old(duel).status is Active) ==> r == Err::<(DuelSettled, Vec<Transfer>), DuelError>(
            DuelError::InvalidStatus,
        ),
        old(duel).status is Active && now < old(duel).end_time ==> r == Err::<
            (DuelSettled, Vec<Transfer>),
            DuelError,
        >(DuelError::DuelNotExpired),
        old(duel).status is Active && now >= old(duel).end_time ==> ({
            let stake = old(duel).stake_amount;
            let rate = old(protocol).fee_bps;
            let cpnl = pnl_bps(old(duel).creator_starting_value, old(duel).creator_final_value);
            let opnl = pnl_bps(old(duel).opponent_starting_value, old(duel).opponent_final_value);
            let w = winner_of(cpnl, opnl);
            let fee = protocol_fee_of(stake, rate);
            &&& r matches Ok(out)
            &&& *final(duel) == (Duel {
                status: DuelStatus::Settled,
                winner: w,
                ..*old(duel)
            })
            &&& *final(protocol) == (Protocol {
                total_volume: sat_add_u64(old(protocol).total_volume as int, 2 * stake) as u64,
                ..*old(protocol)
            })
            &&& final(escrow).balance == 0
            &&& out.0 == (DuelSettled {
                duel: old(duel).id,
                winner: w,
                creator_pnl: cpnl as i128,
                opponent_pnl: opnl as i128,
                winner_payout: winner_payout_of(stake, rate) as u64,
                protocol_fee: fee as u64,
            })
            &&& (w is Draw ==> {
                &&& out.1@.len() == 3
                &&& out.1@[0] == (Transfer {
                    to: old(protocol).treasury,
                    amount: draw_fee_of(stake, rate) as u64,
                })
                &&& out.1@[1] == (Transfer {
                    to: old(duel).creator,
                    amount: draw_refund_of(stake, rate) as u64,
                })
                &&& out.1@[2] == (Transfer {
                    to: old(duel).opponent->0,
                    amount: draw_refund_of(stake, rate) as u64,
                })
            })
            &&& (!(w is Draw) ==> {
                &&& out.1@.len() == 2
                &&& out.1@[0] == (Transfer {
                    to: old(protocol).treasury,
                    amount: fee as u64,
                })
                &&& out.1@[1] == (Transfer {
                    to: if w is Creator {
                        old(duel).creator
                    } else {
                        old(duel).opponent->0
                    },
                    amount: winner_payout_of(stake, rate) as u64,
                })
            })
        }),
        old(duel).is_terminal() ==> (r is Err && *final(duel) == *old(duel)),
{
    if duel.status != DuelStatus::Active {
        return Err(DuelError::InvalidStatus);
    }
    if now < duel.end_time {
        return Err(DuelError::DuelNotExpired);
    }
    let creator_pnl: i128 = calculate_pnl(duel.creator_starting_value, duel.creator_final_value);
    let opponent_pnl: i128 = calculate_pnl(
        duel.opponent_starting_value,
        duel.opponent_final_value,
    );
    let winner: DuelWinner = decide_winner(creator_pnl, opponent_pnl);
    let total_stake: u64 = 2 * duel.stake_amount;
    let protocol_fee: u64 = compute_protocol_fee(duel.stake_amount, protocol.fee_bps);
    let winner_payout: u64 = total_stake - protocol_fee;
    proof {
        lemma_fee_bounds(duel.stake_amount, protocol.fee_bps);
        lemma_draw_settlement_conserves_pool(duel.stake_amount, protocol.fee_bps);
    }
    let mut transfers: Vec<Transfer> = Vec::new();
    if winner == DuelWinner::Draw {
        let retained: u64 = protocol_fee - protocol_fee % 2;
        let refund: u64 = duel.stake_amount - protocol_fee / 2;
        let fee_out: Transfer = escrow.disburse(protocol.treasury, retained);
        transfers.push(fee_out);
        let creator_refund: Transfer = escrow.disburse(duel.creator, refund);
        transfers.push(creator_refund);
        let opponent_refund: Transfer = escrow.disburse(duel.opponent.unwrap(), refund);
        transfers.push(opponent_refund);
    } else {
        let fee_out: Transfer = escrow.disburse(protocol.treasury, protocol_fee);
        transfers.push(fee_out);
        let recipient: u64 = if winner == DuelWinner::Creator {
            duel.creator
        } else {
            duel.opponent.unwrap()
        };
        let payout: Transfer = escrow.disburse(recipient, winner_payout);
        transfers.push(payout);
    }
    duel.status = DuelStatus::Settled;
    duel.winner = winner;
    protocol.record_settlement(total_stake);
    let event = DuelSettled {
        duel: duel.id,
        winner,
        creator_pnl,
        opponent_pnl,
        winner_payout,
        protocol_fee,
    };
    Ok((event, transfers))
}

} // verus!
