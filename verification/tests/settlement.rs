//! Settlement arithmetic and the scenarios: profit-and-loss, fees, payouts,
//! window guards and escrow conservation.

use bandforband::context::AcceptDuel;
use bandforband::context::CreateDuel;
use bandforband::context::DepositStake;
use bandforband::context::Initialize;
use bandforband::context::SettleDuel;
use bandforband::context::UpdatePositions;
use bandforband::errors::DuelError;
use bandforband::escrow::Escrow;
use bandforband::escrow::Transfer;
use bandforband::ops::accept_duel;
use bandforband::ops::create_duel;
use bandforband::ops::deposit_stake;
use bandforband::ops::initialize;
use bandforband::ops::settle_duel;
use bandforband::ops::update_positions;
use bandforband::settlement::calculate_pnl;
use bandforband::settlement::compute_protocol_fee;
use bandforband::settlement::decide_winner;
use bandforband::state::Duel;
use bandforband::state::DuelStatus;
use bandforband::state::DuelWinner;
use bandforband::state::Protocol;

const AUTHORITY: u64 = 900;
const TREASURY: u64 = 700;
const ORACLE: u64 = 500;
const CREATOR: u64 = 1;
const OPPONENT: u64 = 2;
const ANYONE: u64 = 3;

fn fresh_protocol(fee_bps: u16) -> Protocol {
    initialize(
        &Initialize { authority: AUTHORITY, treasury: TREASURY, oracle: ORACLE },
        fee_bps,
    )
    .expect("fee rate within range")
}

/// An active duel with both stakes in escrow, window `[10, 10 + duration]`.
fn active_duel(protocol: &mut Protocol, stake: u64, duration: i64) -> (Duel, Escrow) {
    let mut duel = create_duel(
        &CreateDuel { creator: CREATOR },
        protocol,
        stake,
        duration,
        Vec::new(),
        0,
    );
    let mut escrow = Escrow::new(duel.id);
    accept_duel(&AcceptDuel { opponent: OPPONENT }, &mut duel).unwrap();
    deposit_stake(&DepositStake { depositor: CREATOR }, &mut duel, &mut escrow, 5).unwrap();
    deposit_stake(&DepositStake { depositor: OPPONENT }, &mut duel, &mut escrow, 10).unwrap();
    (duel, escrow)
}

#[test]
fn pnl_gain_and_loss_in_basis_points() {
    assert_eq!(calculate_pnl(1000, 1200), 2000);
    assert_eq!(calculate_pnl(1000, 900), -1000);
    assert_eq!(calculate_pnl(1000, 1000), 0);
    assert_eq!(calculate_pnl(1000, 0), -10000);
    assert_eq!(calculate_pnl(1000, 2000), 10000);
}

#[test]
fn pnl_of_zero_start_is_zero() {
    assert_eq!(calculate_pnl(0, 0), 0);
    assert_eq!(calculate_pnl(0, 123456), 0);
}

#[test]
fn pnl_rounds_toward_zero() {
    assert_eq!(calculate_pnl(3, 4), 3333);
    assert_eq!(calculate_pnl(3, 2), -3333);
    assert_eq!(calculate_pnl(7, 8), 1428);
    assert_eq!(calculate_pnl(7, 6), -1428);
}

#[test]
fn pnl_handles_extreme_values() {
    assert_eq!(calculate_pnl(1, u64::MAX), (u64::MAX as i128 - 1) * 10000);
    assert_eq!(calculate_pnl(u64::MAX, 0), -10000);
}

#[test]
fn winner_rule_is_strict_comparison() {
    assert_eq!(decide_winner(2000, -1000), DuelWinner::Creator);
    assert_eq!(decide_winner(-1000, 2000), DuelWinner::Opponent);
    assert_eq!(decide_winner(-500, -500), DuelWinner::Draw);
    assert_eq!(decide_winner(0, 0), DuelWinner::Draw);
}

#[test]
fn fee_is_floor_of_scaled_pool() {
    assert_eq!(compute_protocol_fee(1000, 500), 100);
    assert_eq!(compute_protocol_fee(1000, 0), 0);
    assert_eq!(compute_protocol_fee(1000, 10000), 2000);
    assert_eq!(compute_protocol_fee(1000, 25), 5);
    assert_eq!(compute_protocol_fee(3, 500), 0);
    assert_eq!(compute_protocol_fee(u64::MAX / 2, 10000), (u64::MAX / 2) * 2);
}

#[test]
fn scenario_creator_wins() {
    let mut protocol = fresh_protocol(500);
    let (mut duel, mut escrow) = active_duel(&mut protocol, 1000, 100);
    update_positions(
        &UpdatePositions { oracle: ORACLE },
        &mut duel,
        &protocol,
        1200,
        900,
        50,
    )
    .unwrap();
    let (event, transfers) = settle_duel(
        &SettleDuel { caller: ANYONE },
        &mut duel,
        &mut protocol,
        &mut escrow,
        110,
    )
    .unwrap();
    assert_eq!(event.duel, duel.id);
    assert_eq!(event.winner, DuelWinner::Creator);
    assert_eq!(event.creator_pnl, 2000);
    assert_eq!(event.opponent_pnl, -1000);
    assert_eq!(event.protocol_fee, 100);
    assert_eq!(event.winner_payout, 1900);
    assert_eq!(
        transfers,
        vec![
            Transfer { to: TREASURY, amount: 100 },
            Transfer { to: CREATOR, amount: 1900 },
        ]
    );
    assert_eq!(duel.status, DuelStatus::Settled);
    assert_eq!(duel.winner, DuelWinner::Creator);
    // A non-draw settlement conserves the pool exactly.
    assert_eq!(event.winner_payout + event.protocol_fee, 2 * 1000);
    assert_eq!(escrow.balance, 0);
    assert_eq!(protocol.total_volume, 2000);
}

#[test]
fn scenario_opponent_wins() {
    let mut protocol = fresh_protocol(500);
    let (mut duel, mut escrow) = active_duel(&mut protocol, 1000, 100);
    update_positions(
        &UpdatePositions { oracle: ORACLE },
        &mut duel,
        &protocol,
        900,
        1200,
        50,
    )
    .unwrap();
    let (event, transfers) = settle_duel(
        &SettleDuel { caller: ANYONE },
        &mut duel,
        &mut protocol,
        &mut escrow,
        110,
    )
    .unwrap();
    assert_eq!(event.winner, DuelWinner::Opponent);
    assert_eq!(
        transfers,
        vec![
            Transfer { to: TREASURY, amount: 100 },
            Transfer { to: OPPONENT, amount: 1900 },
        ]
    );
    assert_eq!(escrow.balance, 0);
}

#[test]
fn scenario_draw_refunds_stake_minus_half_fee() {
    let mut protocol = fresh_protocol(500);
    let (mut duel, mut escrow) = active_duel(&mut protocol, 1000, 100);
    update_positions(
        &UpdatePositions { oracle: ORACLE },
        &mut duel,
        &protocol,
        1000,
        1000,
        50,
    )
    .unwrap();
    let (event, transfers) = settle_duel(
        &SettleDuel { caller: ANYONE },
        &mut duel,
        &mut protocol,
        &mut escrow,
        110,
    )
    .unwrap();
    assert_eq!(event.winner, DuelWinner::Draw);
    assert_eq!(event.creator_pnl, 0);
    assert_eq!(event.opponent_pnl, 0);
    assert_eq!(event.protocol_fee, 100);
    assert_eq!(
        transfers,
        vec![
            Transfer { to: TREASURY, amount: 100 },
            Transfer { to: CREATOR, amount: 950 },
            Transfer { to: OPPONENT, amount: 950 },
        ]
    );
    assert_eq!(duel.winner, DuelWinner::Draw);
    assert_eq!(escrow.balance, 0);
}

#[test]
fn draw_with_odd_fee_retains_even_fee_and_empties_escrow() {
    let mut protocol = fresh_protocol(25);
    let (mut duel, mut escrow) = active_duel(&mut protocol, 1000, 100);
    update_positions(
        &UpdatePositions { oracle: ORACLE },
        &mut duel,
        &protocol,
        1000,
        1000,
        50,
    )
    .unwrap();
    let (event, transfers) = settle_duel(
        &SettleDuel { caller: ANYONE },
        &mut duel,
        &mut protocol,
        &mut escrow,
        110,
    )
    .unwrap();
    assert_eq!(event.protocol_fee, 5);
    assert_eq!(
        transfers,
        vec![
            Transfer { to: TREASURY, amount: 4 },
            Transfer { to: CREATOR, amount: 998 },
            Transfer { to: OPPONENT, amount: 998 },
        ]
    );
    // A draw conserves the pool too: two refunds plus the retained fee, with
    // the retained fee at most one unit short of the nominal fee.
    let paid: u64 = transfers.iter().map(|t| t.amount).sum();
    assert_eq!(paid, 2000);
    assert!(transfers[0].amount <= event.protocol_fee);
    assert!(event.protocol_fee - transfers[0].amount <= 1);
    assert_eq!(escrow.balance, 0);
}

#[test]
fn update_after_window_is_expired() {
    let mut protocol = fresh_protocol(500);
    let (mut duel, _escrow) = active_duel(&mut protocol, 1000, 100);
    assert_eq!(duel.end_time, 110);
    assert_eq!(
        update_positions(&UpdatePositions { oracle: ORACLE }, &mut duel, &protocol, 1, 2, 111),
        Err(DuelError::DuelExpired)
    );
    assert_eq!(duel.creator_final_value, 0);
    assert_eq!(duel.opponent_final_value, 0);
    assert!(
        update_positions(&UpdatePositions { oracle: ORACLE }, &mut duel, &protocol, 1, 2, 110)
            .is_ok()
    );
}

#[test]
fn settle_before_window_closes_is_not_expired() {
    let mut protocol = fresh_protocol(500);
    let (mut duel, mut escrow) = active_duel(&mut protocol, 1000, 100);
    assert_eq!(
        settle_duel(&SettleDuel { caller: ANYONE }, &mut duel, &mut protocol, &mut escrow, 109),
        Err(DuelError::DuelNotExpired)
    );
    assert_eq!(duel.status, DuelStatus::Active);
    assert_eq!(escrow.balance, 2000);
    assert_eq!(protocol.total_volume, 0);
}

#[test]
fn settle_with_zero_fee_pays_whole_pool() {
    let mut protocol = fresh_protocol(0);
    let (mut duel, mut escrow) = active_duel(&mut protocol, 1000, 100);
    update_positions(
        &UpdatePositions { oracle: ORACLE },
        &mut duel,
        &protocol,
        1500,
        800,
        50,
    )
    .unwrap();
    let (event, transfers) = settle_duel(
        &SettleDuel { caller: ANYONE },
        &mut duel,
        &mut protocol,
        &mut escrow,
        110,
    )
    .unwrap();
    assert_eq!(event.protocol_fee, 0);
    assert_eq!(event.winner_payout, 2000);
    assert_eq!(
        transfers,
        vec![
            Transfer { to: TREASURY, amount: 0 },
            Transfer { to: CREATOR, amount: 2000 },
        ]
    );
    assert_eq!(escrow.balance, 0);
}

#[test]
fn untouched_positions_settle_as_full_loss_draw() {
    // The oracle never reported, so both final values sit at zero: both
    // parties lose everything equally and the duel draws.
    let mut protocol = fresh_protocol(500);
    let (mut duel, mut escrow) = active_duel(&mut protocol, 1000, 100);
    let (event, _transfers) = settle_duel(
        &SettleDuel { caller: ANYONE },
        &mut duel,
        &mut protocol,
        &mut escrow,
        110,
    )
    .unwrap();
    assert_eq!(event.creator_pnl, -10000);
    assert_eq!(event.opponent_pnl, -10000);
    assert_eq!(event.winner, DuelWinner::Draw);
    assert_eq!(escrow.balance, 0);
}

#[test]
fn escrow_tracks_deposits_and_disbursements() {
    let mut escrow = Escrow::new(42);
    assert_eq!(escrow.duel_id, 42);
    assert_eq!(escrow.balance, 0);
    escrow.deposit(300);
    escrow.deposit(200);
    assert_eq!(escrow.balance, 500);
    let t = escrow.disburse(TREASURY, 120);
    assert_eq!(t, Transfer { to: TREASURY, amount: 120 });
    assert_eq!(escrow.balance, 380);
    let rest = escrow.disburse(CREATOR, 380);
    assert_eq!(rest.amount, 380);
    assert_eq!(escrow.balance, 0);
}

#[test]
fn registry_counters_saturate_at_the_top() {
    let mut protocol = fresh_protocol(500);
    protocol.total_duels = u64::MAX;
    let id = protocol.record_duel_created();
    assert_eq!(id, u64::MAX);
    assert_eq!(protocol.total_duels, u64::MAX);

    protocol.total_volume = u64::MAX - 5;
    protocol.record_settlement(10);
    assert_eq!(protocol.total_volume, u64::MAX);
    protocol.record_settlement(10);
    assert_eq!(protocol.total_volume, u64::MAX);
}
