//! The settlement protocol's data: the action handed to the caller when an
//! operation needs the external custody service, the outcome the caller
//! reports back, the pending record held under the per-identity guard in
//! between, and the commit applied to a position once a transfer is
//! confirmed.

use vstd::prelude::*;

use crate::accrual::clamp_u64;
use crate::errors::LedgerError;
use crate::errors::SettleFailure;
use crate::params::TRANSFER_FEE;
use crate::position::Activity;
use crate::position::Position;

verus! {

/// A transfer the external custody service must perform before the
/// suspended operation can commit.
#[derive(Clone, Copy, Debug, PartialEq, Eq, Structural)]
pub enum SettlementAction {
    /// Move `amount` from `owner`'s external account into the ledger's
    /// custody account (an allowance check precedes the transfer).
    PullIn { owner: u64, amount: u64 },
    /// Move `amount` from the ledger's custody account out to `owner`.
    PushOut { owner: u64, amount: u64 },
}

/// How a settlement ended, reported back by the caller that performed it.
#[derive(Clone, Copy, Debug, PartialEq, Eq, Structural)]
pub enum SettlementOutcome {
    /// The service confirmed the transfer under this transaction id.
    Confirmed { txid: u64 },
    /// The service rejected the transfer.
    Rejected { failure: SettleFailure },
    /// The call did not complete; whether the transfer happened is unknown,
    /// and nothing is committed locally.
    TransportFailed,
}

/// The operation suspended on a settlement, with everything its commit
/// needs, decided before the suspension.
#[derive(Clone, Copy, Debug, PartialEq, Eq, Structural)]
pub enum PendingOp {
    /// Pull `amount` in; credit `amount` minus the fee.
    Deposit { amount: u64 },
    /// Push `amount` out; debit `amount` plus the fee.
    Withdraw { amount: u64 },
    /// Push `amount` out; record it as borrowed and credit it.
    Borrow { amount: u64 },
    /// Pull `amount` plus the fee in; retire up to `amount` of the debt.
    Repay { amount: u64 },
    /// Push `amount` plus `reward` out of `activity`'s principal.
    Release { activity: Activity, amount: u64, reward: u64 },
    /// Push `reward` out of `activity`'s accrual; the fee comes out of the
    /// principal.
    Claim { activity: Activity, reward: u64 },
    /// Push the whole position (minus the fee) out and zero it.
    Emergency { amount: u64 },
}

/// What held of the position when its pending operation was recorded, and
/// still holds while the guard blocks every other operation on the
/// identity.
pub open spec fn spec_pending_wf(position: Position, op: PendingOp) -> bool {
    match op {
        PendingOp::Deposit { amount } => amount > TRANSFER_FEE,
        PendingOp::Withdraw { amount } => amount > 0 && position.available >= amount
            + TRANSFER_FEE,
        PendingOp::Borrow { amount } => amount > 0,
        PendingOp::Repay { amount } => amount > 0 && position.borrowed > 0,
        PendingOp::Release { activity, amount, reward } => amount > 0
            && position.spec_principal_of(activity) >= amount + TRANSFER_FEE,
        PendingOp::Claim { activity, reward } => reward > 0 && position.spec_principal_of(activity)
            >= TRANSFER_FEE,
        PendingOp::Emergency { amount } => amount > 0 && position.borrowed == 0,
    }
}

/// The position after `op`'s settlement is confirmed at time `now`.
/// Additions clamp at `u64::MAX` and subtractions at zero, so the effect is
/// total; under [`spec_pending_wf`] no subtraction ever clamps.
pub open spec fn spec_commit(position: Position, op: PendingOp, now: u64) -> Position {
    match op {
        PendingOp::Deposit { amount } => Position {
            available: clamp_u64(position.available + amount - TRANSFER_FEE),
            ..position
        },
        PendingOp::Withdraw { amount } => Position {
            available: clamp_u64(position.available - amount - TRANSFER_FEE),
            ..position
        },
        PendingOp::Borrow { amount } => Position {
            borrowed: clamp_u64(position.borrowed + amount),
            available: clamp_u64(position.available + amount),
            borrow_checkpoint: Some(now),
            ..position
        },
        PendingOp::Repay { amount } => {
            let remaining = if amount >= position.borrowed {
                0u64
            } else {
                (position.borrowed - amount) as u64
            };
            Position {
                borrowed: remaining,
                borrow_checkpoint: if remaining == 0 {
                    None
                } else {
                    Some(now)
                },
                ..position
            }
        },
        PendingOp::Release { activity, amount, reward } => {
            let remaining = clamp_u64(
                position.spec_principal_of(activity) - amount - TRANSFER_FEE,
            );
            let checkpoint: Option<u64> = if remaining == 0 {
                None
            } else {
                Some(now)
            };
            let credited = Position {
                available: clamp_u64(position.available + amount + reward),
                ..position
            };
            credited.spec_with_activity(activity, remaining, checkpoint)
        },
        PendingOp::Claim { activity, reward } => {
            let remaining = clamp_u64(position.spec_principal_of(activity) - TRANSFER_FEE);
            let checkpoint: Option<u64> = if remaining == 0 {
                None
            } else {
                Some(now)
            };
            let credited = Position {
                available: clamp_u64(position.available + reward),
                ..position
            };
            credited.spec_with_activity(activity, remaining, checkpoint)
        },
        PendingOp::Emergency { amount: _ } => Position {
            identity: position.identity,
            available: 0,
            staked: 0,
            lent: 0,
            farmed: 0,
            borrowed: 0,
            stake_checkpoint: None,
            lend_checkpoint: None,
            farm_checkpoint: None,
            borrow_checkpoint: None,
        },
    }
}

/// Committing a confirmed settlement keeps the position well-formed: every
/// field stays a machine integer, and each checkpoint remains present
/// exactly when its principal is non-zero.
pub proof fn lemma_commit_preserves_wf(position: Position, op: PendingOp, now: u64)
    requires
        position.wf(),
        spec_pending_wf(position, op),
    ensures
        spec_commit(position, op, now).wf(),
        spec_commit(position, op, now).identity == position.identity,
{
    match op {
        PendingOp::Release { activity, amount, reward } => {
            match activity {
                Activity::Stake => {},
                Activity::Lend => {},
                Activity::Farm => {},
            }
        },
        PendingOp::Claim { activity, reward } => {
            match activity {
                Activity::Stake => {},
                Activity::Lend => {},
                Activity::Farm => {},
            }
        },
        _ => {},
    }
}

/// Repaying exactly the outstanding debt retires the whole borrowed
/// principal and clears its checkpoint: the debt is the principal plus
/// accrued interest, so it is never smaller than the principal.
pub proof fn lemma_exact_repayment_clears_debt(position: Position, amount: u64, now: u64)
    requires
        position.wf(),
        position.borrowed > 0,
        amount as nat == crate::policy::spec_outstanding_debt(position, now),
    ensures
        spec_commit(position, PendingOp::Repay { amount }, now).borrowed == 0,
        spec_commit(position, PendingOp::Repay { amount }, now).borrow_checkpoint is None,
{
}

/// The pre-flight allowance check a pull begins with: the approved
/// allowance must cover the whole pulled amount. `Ok` exactly when it
/// does; the transfer itself is never attempted otherwise.
pub fn pull_preflight(allowance: u64, amount: u64) -> (check: Result<(), LedgerError>)
    ensures
        check is Ok <==> allowance >= amount,
        check is Err ==> check == Err::<(), LedgerError>(LedgerError::InsufficientAllowance),
{
    if allowance >= amount {
        Ok(())
    } else {
        Err(LedgerError::InsufficientAllowance)
    }
}

/// The committed position, computed executably; exactly [`spec_commit`].
pub fn commit(position: Position, op: PendingOp, now: u64) -> (committed: Position)
    ensures
        committed == spec_commit(position, op, now),
{
    match op {
        PendingOp::Deposit { amount } => Position {
            available: if amount >= TRANSFER_FEE {
                clamp_add(position.available, amount - TRANSFER_FEE)
            } else if position.available < TRANSFER_FEE - amount {
                0
            } else {
                position.available - (TRANSFER_FEE - amount)
            },
            ..position
        },
        PendingOp::Withdraw { amount } => Position {
            available: clamp_sub_with_fee(position.available, amount),
            ..position
        },
        PendingOp::Borrow { amount } => Position {
            borrowed: clamp_add(position.borrowed, amount),
            available: clamp_add(position.available, amount),
            borrow_checkpoint: Some(now),
            ..position
        },
        PendingOp::Repay { amount } => {
            let remaining: u64 = if amount >= position.borrowed {
                0
            } else {
                position.borrowed - amount
            };
            Position {
                borrowed: remaining,
                borrow_checkpoint: if remaining == 0 {
                    None
                } else {
                    Some(now)
                },
                ..position
            }
        },
        PendingOp::Release { activity, amount, reward } => {
            let remaining = clamp_sub_with_fee(position.principal_of(activity), amount);
            let checkpoint: Option<u64> = if remaining == 0 {
                None
            } else {
                Some(now)
            };
            let credited = Position {
                available: clamp_add(clamp_add(position.available, amount), reward),
                ..position
            };
            credited.with_activity(activity, remaining, checkpoint)
        },
        PendingOp::Claim { activity, reward } => {
            let principal = position.principal_of(activity);
            let remaining: u64 = if principal < TRANSFER_FEE {
                0
            } else {
                principal - TRANSFER_FEE
            };
            let checkpoint: Option<u64> = if remaining == 0 {
                None
            } else {
                Some(now)
            };
            let credited = Position { available: clamp_add(position.available, reward), ..position };
            credited.with_activity(activity, remaining, checkpoint)
        },
        PendingOp::Emergency { amount: _ } => Position {
            identity: position.identity,
            available: 0,
            staked: 0,
            lent: 0,
            farmed: 0,
            borrowed: 0,
            stake_checkpoint: None,
            lend_checkpoint: None,
            farm_checkpoint: None,
            borrow_checkpoint: None,
        },
    }
}

/// `a + b`, clamped at `u64::MAX`.
pub(crate) fn clamp_add(a: u64, b: u64) -> (sum: u64)
    ensures
        sum == clamp_u64(a + b),
{
    if a > u64::MAX - b {
        u64::MAX
    } else {
        a + b
    }
}

/// `a - amount - TRANSFER_FEE`, clamped at zero.
fn clamp_sub_with_fee(a: u64, amount: u64) -> (difference: u64)
    ensures
        difference == clamp_u64(a - amount - TRANSFER_FEE),
{
    if (a as u128) < (amount as u128) + (TRANSFER_FEE as u128) {
        0
    } else {
        a - amount - TRANSFER_FEE
    }
}

} // verus!
