//! The settlement engine: profit-and-loss, winner determination, and the fee
//! and payout arithmetic.

use vstd::prelude::*;

use vstd::arithmetic::div_mod::lemma_div_is_ordered;
use vstd::arithmetic::div_mod::lemma_div_multiples_vanish;
use vstd::arithmetic::div_mod::lemma_div_nonincreasing;
use vstd::arithmetic::mul::lemma_mul_inequality;
use vstd::arithmetic::mul::lemma_mul_upper_bound;

use crate::state::DuelWinner;
use crate::state::MAX_STAKE;

verus! {

/// Percentage change from `starting_value` to `final_value`, in basis points,
/// rounded toward zero: `(final - starting) * 10000 / starting` under the
/// signed division of the machine, and `0` for a starting value of zero.
pub open spec fn pnl_bps(starting_value: u64, final_value: u64) -> int {
    if starting_value == 0 {
        0
    } else if final_value >= starting_value {
        ((final_value - starting_value) * 10000) / (starting_value as int)
    } else {
        -(((starting_value - final_value) * 10000) / (starting_value as int))
    }
}

/// The pooled stake of a duel: both parties' stakes together.
pub open spec fn total_stake_of(stake_amount: u64) -> int {
    2 * stake_amount
}

/// The nominal protocol fee: the pooled stake scaled by the fee rate, rounded
/// down.
pub open spec fn protocol_fee_of(stake_amount: u64, fee_bps: u16) -> int {
    (total_stake_of(stake_amount) * fee_bps) / 10000
}

/// What a single winner receives: the pooled stake minus the nominal fee.
pub open spec fn winner_payout_of(stake_amount: u64, fee_bps: u16) -> int {
    total_stake_of(stake_amount) - protocol_fee_of(stake_amount, fee_bps)
}

/// What each party receives on a draw: the stake minus half the nominal fee,
/// rounded down.
pub open spec fn draw_refund_of(stake_amount: u64, fee_bps: u16) -> int {
    stake_amount - protocol_fee_of(stake_amount, fee_bps) / 2
}

/// What the treasury receives on a draw: the nominal fee rounded down to an
/// even amount, so that the two refunds and the fee empty the escrow exactly.
pub open spec fn draw_fee_of(stake_amount: u64, fee_bps: u16) -> int {
    2 * (protocol_fee_of(stake_amount, fee_bps) / 2)
}

/// The winner rule: strictly greater profit-and-loss wins; equality is a
/// draw.
pub open spec fn winner_of(creator_pnl: int, opponent_pnl: int) -> DuelWinner {
    if creator_pnl > opponent_pnl {
        DuelWinner::Creator
    } else if opponent_pnl > creator_pnl {
        DuelWinner::Opponent
    } else {
        DuelWinner::Draw
    }
}

/// The nominal fee never exceeds the pooled stake.
pub proof fn lemma_fee_bounds(stake_amount: u64, fee_bps: u16)
    requires
        fee_bps <= 10000,
    ensures
        0 <= protocol_fee_of(stake_amount, fee_bps),
        protocol_fee_of(stake_amount, fee_bps) <= total_stake_of(stake_amount),
{
    let t = total_stake_of(stake_amount);
    lemma_mul_inequality(fee_bps as int, 10000, t);
    assert(t * fee_bps == fee_bps * t) by (nonlinear_arith);
    lemma_div_is_ordered(t * fee_bps, t * 10000, 10000);
    assert(t * 10000 == 10000 * t) by (nonlinear_arith);
    lemma_div_multiples_vanish(t, 10000);
}

/// Settling a non-draw conserves the pool: the winner's payout and the
/// protocol fee together equal exactly twice the stake, for every fee rate up
/// to 100% and every positive stake.
pub proof fn lemma_nondraw_settlement_conserves_pool(stake_amount: u64, fee_bps: u16)
    requires
        0 < stake_amount,
        fee_bps <= 10000,
    ensures
        winner_payout_of(stake_amount, fee_bps) + protocol_fee_of(stake_amount, fee_bps)
            == 2 * stake_amount,
        0 <= winner_payout_of(stake_amount, fee_bps),
{
    lemma_fee_bounds(stake_amount, fee_bps);
}

/// Settling a draw conserves the pool as well: the two refunds and the fee
/// the treasury actually retains equal exactly twice the stake, and the
/// retained fee falls short of the nominal fee by at most one unit — the
/// rounding loss is never a gain.
pub proof fn lemma_draw_settlement_conserves_pool(stake_amount: u64, fee_bps: u16)
    requires
        0 < stake_amount,
        fee_bps <= 10000,
    ensures
        2 * draw_refund_of(stake_amount, fee_bps) + draw_fee_of(stake_amount, fee_bps)
            == 2 * stake_amount,
        draw_fee_of(stake_amount, fee_bps) <= protocol_fee_of(stake_amount, fee_bps),
        protocol_fee_of(stake_amount, fee_bps) - draw_fee_of(stake_amount, fee_bps) <= 1,
        0 <= draw_refund_of(stake_amount, fee_bps),
{
    let fee = protocol_fee_of(stake_amount, fee_bps);
    lemma_fee_bounds(stake_amount, fee_bps);
    lemma_div_is_ordered(fee, 2 * stake_amount, 2);
    assert(fee == 2 * (fee / 2) + fee % 2);
}

/// Computes `pnl_bps` without overflow: the scaled difference is formed in
/// 128 bits before the division.
pub fn calculate_pnl(starting_value: u64, final_value: u64) -> (r: i128)
    ensures
        r == pnl_bps(starting_value, final_value),
{
    if starting_value == 0 {
        0
    } else if final_value >= starting_value {
        let diff: u128 = (final_value - starting_value) as u128;
        let q: u128 = (diff * 10000) / (starting_value as u128);
        proof {
            lemma_div_nonincreasing((diff * 10000) as int, starting_value as int);
        }
        q as i128
    } else {
        let diff: u128 = (starting_value - final_value) as u128;
        let q: u128 = (diff * 10000) / (starting_value as u128);
        proof {
            lemma_div_nonincreasing((diff * 10000) as int, starting_value as int);
        }
        -(q as i128)
    }
}

/// Computes `protocol_fee_of` without overflow; the result never exceeds the
/// pooled stake.
pub fn compute_protocol_fee(stake_amount: u64, fee_bps: u16) -> (fee: u64)
    requires
        stake_amount <= MAX_STAKE,
        fee_bps <= 10000,
    ensures
        fee == protocol_fee_of(stake_amount, fee_bps),
        fee <= 2 * stake_amount,
{
    let total: u64 = 2 * stake_amount;
    proof {
        lemma_mul_upper_bound(total as int, u64::MAX as int, fee_bps as int, 10000);
        lemma_fee_bounds(stake_amount, fee_bps);
    }
    let fee_wide: u128 = ((total as u128) * (fee_bps as u128)) / 10000;
    fee_wide as u64
}

/// Computes `winner_of`.
pub fn decide_winner(creator_pnl: i128, opponent_pnl: i128) -> (w: DuelWinner)
    ensures
        w == winner_of(creator_pnl as int, opponent_pnl as int),
{
    if creator_pnl > opponent_pnl {
        DuelWinner::Creator
    } else if opponent_pnl > creator_pnl {
        DuelWinner::Opponent
    } else {
        DuelWinner::Draw
    }
}

} // verus!
