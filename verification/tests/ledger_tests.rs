//! End-to-end exercises of the ledger: registration, the two-phase
//! settlement protocol, the per-identity guard, and every error path.

use bitfinance::errors::LedgerError;
use bitfinance::errors::SettleFailure;
use bitfinance::params::SECONDS_PER_YEAR;
use bitfinance::settlement::pull_preflight;
use bitfinance::settlement::SettlementAction;
use bitfinance::settlement::SettlementOutcome;
use bitfinance::store::Ledger;

const ADMIN: u64 = 1;
const ALICE: u64 = 2;
const BOB: u64 = 3;

fn confirmed(txid: u64) -> SettlementOutcome {
    SettlementOutcome::Confirmed { txid }
}

/// A registered ledger with `available` credited to Alice by a deposit.
fn ledger_with_alice(available: u64) -> Ledger {
    let mut ledger = Ledger::new(ADMIN);
    ledger.register(ALICE).unwrap();
    if available > 0 {
        // Deposit credits amount minus the fee of 10.
        let action = ledger.deposit_begin(ALICE, available + 10).unwrap();
        assert_eq!(action, SettlementAction::PullIn { owner: ALICE, amount: available + 10 });
        ledger.settle(ALICE, confirmed(1), 0).unwrap();
    }
    ledger
}

#[test]
fn register_creates_then_is_idempotent() {
    let mut ledger = Ledger::new(ADMIN);
    assert_eq!(ledger.register(ALICE), Ok(true));
    let before = ledger.get_position(ALICE).unwrap();
    assert_eq!(ledger.register(ALICE), Ok(false));
    assert_eq!(ledger.get_position(ALICE).unwrap(), before);
    assert_eq!(before.available, 0);
    assert_eq!(before.staked, 0);
    assert_eq!(before.borrowed, 0);
    assert_eq!(before.stake_checkpoint, None);
}

#[test]
fn operations_require_registration() {
    let mut ledger = Ledger::new(ADMIN);
    assert_eq!(ledger.deposit_begin(ALICE, 100), Err(LedgerError::NotRegistered));
    assert_eq!(ledger.stake(ALICE, 100, 0), Err(LedgerError::NotRegistered));
    assert_eq!(ledger.get_loan_debt(ALICE, 0), Err(LedgerError::NotRegistered));
    assert_eq!(ledger.settle(ALICE, confirmed(1), 0), Err(LedgerError::NotRegistered));
}

#[test]
fn zero_amounts_are_invalid() {
    let mut ledger = ledger_with_alice(1_000);
    assert_eq!(ledger.deposit_begin(ALICE, 0), Err(LedgerError::InvalidAmount));
    assert_eq!(ledger.withdraw_begin(ALICE, 0), Err(LedgerError::InvalidAmount));
    assert_eq!(ledger.borrow_begin(ALICE, 0), Err(LedgerError::InvalidAmount));
    assert_eq!(ledger.repay_begin(ALICE, 0, 0), Err(LedgerError::InvalidAmount));
    assert_eq!(ledger.stake(ALICE, 0, 0), Err(LedgerError::InvalidAmount));
    assert_eq!(ledger.unstake_begin(ALICE, 0, 0), Err(LedgerError::InvalidAmount));
}

#[test]
fn deposit_too_small_to_cover_fee_is_invalid() {
    let mut ledger = ledger_with_alice(0);
    assert_eq!(ledger.deposit_begin(ALICE, 10), Err(LedgerError::InvalidAmount));
    assert_eq!(ledger.deposit_begin(ALICE, 3), Err(LedgerError::InvalidAmount));
}

#[test]
fn deposit_credits_amount_minus_fee() {
    let mut ledger = ledger_with_alice(0);
    let action = ledger.deposit_begin(ALICE, 1_000).unwrap();
    assert_eq!(action, SettlementAction::PullIn { owner: ALICE, amount: 1_000 });
    assert_eq!(ledger.settle(ALICE, confirmed(42), 5), Ok(42));
    assert_eq!(ledger.get_position(ALICE).unwrap().available, 990);
}

#[test]
fn withdraw_debits_amount_plus_fee() {
    let mut ledger = ledger_with_alice(1_000);
    let action = ledger.withdraw_begin(ALICE, 400).unwrap();
    assert_eq!(action, SettlementAction::PushOut { owner: ALICE, amount: 400 });
    ledger.settle(ALICE, confirmed(2), 5).unwrap();
    assert_eq!(ledger.get_position(ALICE).unwrap().available, 590);
}

#[test]
fn withdraw_beyond_balance_is_rejected() {
    let mut ledger = ledger_with_alice(1_000);
    // 991 + fee 10 exceeds the balance of 1000.
    assert_eq!(ledger.withdraw_begin(ALICE, 991), Err(LedgerError::InsufficientBalance));
    // 990 + fee 10 is exactly the balance.
    assert!(ledger.withdraw_begin(ALICE, 990).is_ok());
}

#[test]
fn stake_moves_balance_and_sets_checkpoint() {
    let mut ledger = ledger_with_alice(1_000);
    ledger.stake(ALICE, 500, 77).unwrap();
    let position = ledger.get_position(ALICE).unwrap();
    assert_eq!(position.available, 490);
    assert_eq!(position.staked, 500);
    assert_eq!(position.stake_checkpoint, Some(77));
}

#[test]
fn stake_beyond_balance_is_rejected() {
    let mut ledger = ledger_with_alice(100);
    assert_eq!(ledger.stake(ALICE, 91, 0), Err(LedgerError::InsufficientBalance));
    assert!(ledger.stake(ALICE, 90, 0).is_ok());
}

#[test]
fn unstake_pays_principal_plus_reward() {
    let mut ledger = ledger_with_alice(1_000);
    ledger.stake(ALICE, 500, 0).unwrap();
    // One year later: 10% of 500 = 50 reward.
    let action = ledger.unstake_begin(ALICE, 200, SECONDS_PER_YEAR).unwrap();
    assert_eq!(action, SettlementAction::PushOut { owner: ALICE, amount: 250 });
    ledger.settle(ALICE, confirmed(3), SECONDS_PER_YEAR).unwrap();
    let position = ledger.get_position(ALICE).unwrap();
    // 490 available + 200 unstaked + 50 reward.
    assert_eq!(position.available, 740);
    // 500 staked - 200 - fee 10.
    assert_eq!(position.staked, 290);
    assert_eq!(position.stake_checkpoint, Some(SECONDS_PER_YEAR));
}

#[test]
fn unstake_everything_clears_checkpoint() {
    let mut ledger = ledger_with_alice(1_000);
    ledger.stake(ALICE, 500, 0).unwrap();
    // Release 490 + fee 10 = the whole staked principal.
    ledger.unstake_begin(ALICE, 490, 100).unwrap();
    ledger.settle(ALICE, confirmed(4), 100).unwrap();
    let position = ledger.get_position(ALICE).unwrap();
    assert_eq!(position.staked, 0);
    assert_eq!(position.stake_checkpoint, None);
}

#[test]
fn unstake_beyond_principal_is_rejected() {
    let mut ledger = ledger_with_alice(1_000);
    ledger.stake(ALICE, 500, 0).unwrap();
    assert_eq!(ledger.unstake_begin(ALICE, 491, 0), Err(LedgerError::InsufficientPrincipal));
}

#[test]
fn lend_and_unlend_mirror_staking() {
    let mut ledger = ledger_with_alice(1_000);
    ledger.lend(ALICE, 400, 0).unwrap();
    let position = ledger.get_position(ALICE).unwrap();
    assert_eq!(position.available, 590);
    assert_eq!(position.lent, 400);
    assert_eq!(position.lend_checkpoint, Some(0));
    // One year at 5%: reward 20.
    let action = ledger.unlend_begin(ALICE, 100, SECONDS_PER_YEAR).unwrap();
    assert_eq!(action, SettlementAction::PushOut { owner: ALICE, amount: 120 });
    ledger.settle(ALICE, confirmed(5), SECONDS_PER_YEAR).unwrap();
    let position = ledger.get_position(ALICE).unwrap();
    assert_eq!(position.available, 710);
    assert_eq!(position.lent, 290);
}

#[test]
fn farm_and_unfarm_mirror_staking() {
    let mut ledger = ledger_with_alice(1_000);
    ledger.yield_farm(ALICE, 400, 0).unwrap();
    let position = ledger.get_position(ALICE).unwrap();
    assert_eq!(position.available, 590);
    assert_eq!(position.farmed, 400);
    // One year at 15%: reward 60.
    let action = ledger.unfarm_begin(ALICE, 100, SECONDS_PER_YEAR).unwrap();
    assert_eq!(action, SettlementAction::PushOut { owner: ALICE, amount: 160 });
    ledger.settle(ALICE, confirmed(6), SECONDS_PER_YEAR).unwrap();
    assert_eq!(ledger.get_position(ALICE).unwrap().farmed, 290);
}

#[test]
fn borrow_at_exact_collateral_boundary_succeeds() {
    let mut ledger = ledger_with_alice(1_000);
    // Collateral base 1000 covers exactly 2 * 500.
    let action = ledger.borrow_begin(ALICE, 500).unwrap();
    assert_eq!(action, SettlementAction::PushOut { owner: ALICE, amount: 500 });
    ledger.settle(ALICE, confirmed(7), 9).unwrap();
    let position = ledger.get_position(ALICE).unwrap();
    assert_eq!(position.borrowed, 500);
    assert_eq!(position.available, 1_500);
    assert_eq!(position.borrow_checkpoint, Some(9));
}

#[test]
fn borrow_beyond_collateral_is_rejected() {
    let mut ledger = ledger_with_alice(1_000);
    assert_eq!(ledger.borrow_begin(ALICE, 501), Err(LedgerError::InsufficientCollateral));
    let position = ledger.get_position(ALICE).unwrap();
    assert_eq!(position.borrowed, 0);
}

#[test]
fn second_borrow_while_suspended_sees_busy() {
    let mut ledger = ledger_with_alice(1_000);
    ledger.borrow_begin(ALICE, 100).unwrap();
    // The first borrow has not settled: the guard is held.
    assert!(ledger.has_pending(ALICE));
    assert_eq!(ledger.borrow_begin(ALICE, 100), Err(LedgerError::Busy));
    assert_eq!(ledger.withdraw_begin(ALICE, 100), Err(LedgerError::Busy));
    assert_eq!(ledger.stake(ALICE, 100, 0), Err(LedgerError::Busy));
    // Other identities are unaffected.
    ledger.register(BOB).unwrap();
    assert_eq!(ledger.deposit_begin(BOB, 100).is_ok(), true);
    // Settling the first borrow commits exactly once and releases the guard.
    ledger.settle(ALICE, confirmed(8), 0).unwrap();
    assert!(!ledger.has_pending(ALICE));
    assert_eq!(ledger.get_position(ALICE).unwrap().borrowed, 100);
}

#[test]
fn rejected_settlement_leaves_state_untouched() {
    let mut ledger = ledger_with_alice(1_000);
    let before = ledger.get_position(ALICE).unwrap();
    ledger.borrow_begin(ALICE, 100).unwrap();
    let outcome = ledger.settle(
        ALICE,
        SettlementOutcome::Rejected { failure: SettleFailure::InsufficientFunds },
        50,
    );
    assert_eq!(
        outcome,
        Err(LedgerError::SettlementFailed(SettleFailure::InsufficientFunds))
    );
    assert_eq!(ledger.get_position(ALICE).unwrap(), before);
    assert!(!ledger.has_pending(ALICE));
}

#[test]
fn transport_failure_leaves_state_untouched() {
    let mut ledger = ledger_with_alice(1_000);
    let before = ledger.get_position(ALICE).unwrap();
    ledger.withdraw_begin(ALICE, 100).unwrap();
    assert_eq!(
        ledger.settle(ALICE, SettlementOutcome::TransportFailed, 50),
        Err(LedgerError::TransportFailure)
    );
    assert_eq!(ledger.get_position(ALICE).unwrap(), before);
    assert!(!ledger.has_pending(ALICE));
}

#[test]
fn settle_without_pending_operation_is_rejected() {
    let mut ledger = ledger_with_alice(1_000);
    assert_eq!(
        ledger.settle(ALICE, confirmed(9), 0),
        Err(LedgerError::NoPendingSettlement)
    );
}

#[test]
fn repay_exact_debt_clears_loan_and_checkpoint() {
    let mut ledger = ledger_with_alice(1_000);
    ledger.borrow_begin(ALICE, 500).unwrap();
    ledger.settle(ALICE, confirmed(10), 0).unwrap();
    // One year later the debt is 500 + 12% = 560.
    assert_eq!(ledger.get_loan_debt(ALICE, SECONDS_PER_YEAR), Ok(560));
    let action = ledger.repay_begin(ALICE, 560, SECONDS_PER_YEAR).unwrap();
    // The repayment plus the fee is pulled in.
    assert_eq!(action, SettlementAction::PullIn { owner: ALICE, amount: 570 });
    ledger.settle(ALICE, confirmed(11), SECONDS_PER_YEAR).unwrap();
    let position = ledger.get_position(ALICE).unwrap();
    assert_eq!(position.borrowed, 0);
    assert_eq!(position.borrow_checkpoint, None);
}

#[test]
fn partial_repayment_restarts_interest() {
    let mut ledger = ledger_with_alice(1_000);
    ledger.borrow_begin(ALICE, 500).unwrap();
    ledger.settle(ALICE, confirmed(12), 0).unwrap();
    ledger.repay_begin(ALICE, 200, 1_000).unwrap();
    ledger.settle(ALICE, confirmed(13), 1_000).unwrap();
    let position = ledger.get_position(ALICE).unwrap();
    assert_eq!(position.borrowed, 300);
    assert_eq!(position.borrow_checkpoint, Some(1_000));
}

#[test]
fn repaying_more_than_debt_is_rejected() {
    let mut ledger = ledger_with_alice(1_000);
    ledger.borrow_begin(ALICE, 500).unwrap();
    ledger.settle(ALICE, confirmed(14), 0).unwrap();
    assert_eq!(ledger.repay_begin(ALICE, 501, 0), Err(LedgerError::ExceedsDebt));
    // With no loan at all, any repayment exceeds the (zero) debt.
    ledger.register(BOB).unwrap();
    assert_eq!(ledger.repay_begin(BOB, 1, 0), Err(LedgerError::ExceedsDebt));
}

#[test]
fn claim_pays_reward_and_restarts_checkpoint() {
    let mut ledger = ledger_with_alice(1_000);
    ledger.stake(ALICE, 500, 0).unwrap();
    assert_eq!(ledger.get_pending_rewards(ALICE, bitfinance::position::Activity::Stake, SECONDS_PER_YEAR), Ok(50));
    let action = ledger.claim_staking_begin(ALICE, SECONDS_PER_YEAR).unwrap();
    assert_eq!(action, SettlementAction::PushOut { owner: ALICE, amount: 50 });
    ledger.settle(ALICE, confirmed(15), SECONDS_PER_YEAR).unwrap();
    let position = ledger.get_position(ALICE).unwrap();
    // The fee comes out of the staked principal; the reward is credited.
    assert_eq!(position.staked, 490);
    assert_eq!(position.available, 540);
    assert_eq!(position.stake_checkpoint, Some(SECONDS_PER_YEAR));
}

#[test]
fn claim_without_accrued_reward_is_rejected() {
    let mut ledger = ledger_with_alice(1_000);
    ledger.stake(ALICE, 500, 0).unwrap();
    assert_eq!(ledger.claim_staking_begin(ALICE, 0), Err(LedgerError::NothingToClaim));
    assert_eq!(ledger.claim_lending_begin(ALICE, SECONDS_PER_YEAR), Err(LedgerError::NothingToClaim));
    assert_eq!(ledger.claim_farming_begin(ALICE, SECONDS_PER_YEAR), Err(LedgerError::NothingToClaim));
}

#[test]
fn emergency_withdrawal_zeroes_position() {
    let mut ledger = ledger_with_alice(1_000);
    ledger.stake(ALICE, 300, 0).unwrap();
    ledger.lend(ALICE, 200, 0).unwrap();
    // At one year: available 480, staked 300 (+30), lent 200 (+10).
    let action = ledger.emergency_withdraw_begin(ALICE, SECONDS_PER_YEAR).unwrap();
    // 480 + 300 + 200 + 30 + 10 - fee 10 = 1010.
    assert_eq!(action, SettlementAction::PushOut { owner: ALICE, amount: 1_010 });
    ledger.settle(ALICE, confirmed(16), SECONDS_PER_YEAR).unwrap();
    let position = ledger.get_position(ALICE).unwrap();
    assert_eq!(position.available, 0);
    assert_eq!(position.staked, 0);
    assert_eq!(position.lent, 0);
    assert_eq!(position.farmed, 0);
    assert_eq!(position.borrowed, 0);
    assert_eq!(position.stake_checkpoint, None);
    assert_eq!(position.lend_checkpoint, None);
    // The entry is retained.
    assert_eq!(ledger.register(ALICE), Ok(false));
}

#[test]
fn emergency_withdrawal_blocked_by_outstanding_loan() {
    let mut ledger = ledger_with_alice(1_000);
    ledger.borrow_begin(ALICE, 100).unwrap();
    ledger.settle(ALICE, confirmed(17), 0).unwrap();
    assert_eq!(ledger.emergency_withdraw_begin(ALICE, 0), Err(LedgerError::DebtOutstanding));
}

#[test]
fn emergency_withdrawal_needs_more_than_the_fee() {
    let mut ledger = ledger_with_alice(0);
    assert_eq!(ledger.emergency_withdraw_begin(ALICE, 0), Err(LedgerError::InsufficientBalance));
}

#[test]
fn pause_blocks_mutations_but_not_reads() {
    let mut ledger = ledger_with_alice(1_000);
    assert_eq!(ledger.pause(ALICE), Err(LedgerError::Unauthorized));
    ledger.pause(ADMIN).unwrap();
    assert_eq!(ledger.register(BOB), Err(LedgerError::Paused));
    assert_eq!(ledger.deposit_begin(ALICE, 100), Err(LedgerError::Paused));
    assert_eq!(ledger.withdraw_begin(ALICE, 100), Err(LedgerError::Paused));
    assert_eq!(ledger.borrow_begin(ALICE, 100), Err(LedgerError::Paused));
    assert_eq!(ledger.repay_begin(ALICE, 100, 0), Err(LedgerError::Paused));
    assert_eq!(ledger.stake(ALICE, 100, 0), Err(LedgerError::Paused));
    assert_eq!(ledger.unstake_begin(ALICE, 100, 0), Err(LedgerError::Paused));
    assert_eq!(ledger.claim_staking_begin(ALICE, 0), Err(LedgerError::Paused));
    assert_eq!(ledger.emergency_withdraw_begin(ALICE, 0), Err(LedgerError::Paused));
    // Reads stay available while paused.
    assert!(ledger.get_position(ALICE).is_some());
    let stats = ledger.get_platform_stats();
    assert_eq!(stats.users, 1);
    assert_eq!(stats.total_available, 1_000);
    // Only the admin can unpause; afterwards operations resume.
    assert_eq!(ledger.unpause(ALICE), Err(LedgerError::Unauthorized));
    ledger.unpause(ADMIN).unwrap();
    assert!(ledger.stake(ALICE, 100, 0).is_ok());
}

#[test]
fn preflight_allowance_check_is_exact() {
    assert_eq!(pull_preflight(1_000, 1_000), Ok(()));
    assert_eq!(pull_preflight(999, 1_000), Err(LedgerError::InsufficientAllowance));
    assert_eq!(pull_preflight(0, 0), Ok(()));
}

#[test]
fn platform_stats_sum_every_position() {
    let mut ledger = ledger_with_alice(1_000);
    ledger.register(BOB).unwrap();
    let action = ledger.deposit_begin(BOB, 510).unwrap();
    assert_eq!(action, SettlementAction::PullIn { owner: BOB, amount: 510 });
    ledger.settle(BOB, confirmed(18), 0).unwrap();
    ledger.stake(ALICE, 100, 0).unwrap();
    ledger.lend(BOB, 200, 0).unwrap();
    ledger.borrow_begin(ALICE, 300).unwrap();
    ledger.settle(ALICE, confirmed(19), 0).unwrap();
    let stats = ledger.get_platform_stats();
    assert_eq!(stats.users, 2);
    // Alice: 1000 - 110 staked leg + 300 borrowed credit = 1190; Bob: 500 - 210 = 290.
    assert_eq!(stats.total_available, 1_190 + 290);
    assert_eq!(stats.total_staked, 100);
    assert_eq!(stats.total_lent, 200);
    assert_eq!(stats.total_farmed, 0);
    assert_eq!(stats.total_borrowed, 300);
}

/// The worked example: register, deposit 1000 (fee 10), stake 500 (fee 10),
/// accrue a year at 10%, claim.
#[test]
fn worked_example_deposit_stake_accrue_claim() {
    let mut ledger = Ledger::new(ADMIN);
    ledger.register(ALICE).unwrap();
    ledger.deposit_begin(ALICE, 1_000).unwrap();
    ledger.settle(ALICE, confirmed(20), 0).unwrap();
    assert_eq!(ledger.get_position(ALICE).unwrap().available, 990);
    ledger.stake(ALICE, 500, 0).unwrap();
    let position = ledger.get_position(ALICE).unwrap();
    assert_eq!(position.available, 480);
    assert_eq!(position.staked, 500);
    assert_eq!(position.stake_checkpoint, Some(0));
    let claim_time = SECONDS_PER_YEAR;
    assert_eq!(
        ledger.get_pending_rewards(ALICE, bitfinance::position::Activity::Stake, claim_time),
        Ok(50)
    );
    ledger.claim_staking_begin(ALICE, claim_time).unwrap();
    ledger.settle(ALICE, confirmed(21), claim_time).unwrap();
    let position = ledger.get_position(ALICE).unwrap();
    assert_eq!(position.available, 530);
    assert_eq!(position.stake_checkpoint, Some(claim_time));
}

#[test]
fn deposit_just_above_fee_credits_remainder() {
    let mut ledger = ledger_with_alice(0);
    ledger.deposit_begin(ALICE, 11).unwrap();
    ledger.settle(ALICE, confirmed(22), 0).unwrap();
    assert_eq!(ledger.get_position(ALICE).unwrap().available, 1);
}

#[test]
fn pause_flag_is_readable() {
    let mut ledger = Ledger::new(ADMIN);
    assert!(!ledger.get_paused());
    ledger.pause(ADMIN).unwrap();
    assert!(ledger.get_paused());
    ledger.unpause(ADMIN).unwrap();
    assert!(!ledger.get_paused());
}

#[test]
fn in_flight_settlement_completes_despite_pause() {
    // Pausing blocks new operations, but an in-flight settlement runs to
    // completion and its guard is released.
    let mut ledger = ledger_with_alice(1_000);
    ledger.withdraw_begin(ALICE, 100).unwrap();
    ledger.pause(ADMIN).unwrap();
    assert_eq!(ledger.settle(ALICE, confirmed(23), 0), Ok(23));
    assert_eq!(ledger.get_position(ALICE).unwrap().available, 890);
    assert!(!ledger.has_pending(ALICE));
}

#[test]
fn ledger_health_factor_tracks_debt() {
    let mut ledger = ledger_with_alice(1_000);
    assert_eq!(ledger.get_health_factor(ALICE, 0), Ok(bitfinance::policy::HealthFactor::NoDebt));
    ledger.borrow_begin(ALICE, 400).unwrap();
    ledger.settle(ALICE, confirmed(24), 0).unwrap();
    // Collateral base 1400 (available 1400), debt 400 at t=0.
    assert_eq!(
        ledger.get_health_factor(ALICE, 0),
        Ok(bitfinance::policy::HealthFactor::Ratio { collateral: 1_400, debt: 400 })
    );
}

#[test]
fn accrue_zero_principal_earns_nothing() {
    assert_eq!(bitfinance::accrual::accrue(0, Some(0), 10, SECONDS_PER_YEAR), 0);
}
