//! The ledger's operations.
//!
//! Every operation runs the same admission chain — validate the amount,
//! refuse while paused, require registration, refuse while the identity's
//! guard is held — and then its own precondition. Operations that move
//! value across the custody boundary are split in two: a `*_begin` that
//! admits the operation, records it as pending (acquiring the guard), and
//! returns the [`SettlementAction`] the caller must perform; and
//! [`Ledger::settle`], which the caller invokes with the outcome, and which
//! commits the recorded operation exactly when the transfer was confirmed,
//! releasing the guard on every path. Operations that stay inside the
//! ledger's custody (stake, lend, yield-farm) commit atomically.
//!
//! Each operation's contract equates its result with a specification
//! transition function over the account map, so the exact admission
//! conditions, the exact error, and the exact state change are pinned down
//! for every input.

use vstd::prelude::*;

use crate::accrual::clamp_u64;
use crate::accrual::spec_accrue;
use crate::errors::LedgerError;
use crate::params::TRANSFER_FEE;
use crate::policy::can_borrow;
use crate::policy::outstanding_debt;
use crate::policy::spec_can_borrow;
use crate::policy::spec_outstanding_debt;
use crate::position::rate_of;
use crate::position::spec_rate_of;
use crate::position::Activity;
use crate::position::Position;
use crate::settlement::clamp_add;
use crate::settlement::commit;
use crate::settlement::lemma_commit_preserves_wf;
use crate::settlement::spec_commit;
use crate::settlement::spec_pending_wf;
use crate::settlement::PendingOp;
use crate::settlement::SettlementAction;
use crate::settlement::SettlementOutcome;
use crate::store::same_state;
use crate::store::Account;
use crate::store::Ledger;

verus! {

broadcast use vstd::std_specs::hash::group_hash_axioms;

/// The admission gate every operation passes after validating its amount:
/// nothing is admitted while the ledger is paused, for an unregistered
/// identity, or while the identity's guard is held by a suspended
/// settlement. Admission yields the identity's current position.
pub open spec fn spec_gate(paused: bool, accounts: Map<u64, Account>, id: u64) -> Result<
    Position,
    LedgerError,
> {
    if paused {
        Err(LedgerError::Paused)
    } else if !accounts.contains_key(id) {
        Err(LedgerError::NotRegistered)
    } else if accounts[id].pending is Some {
        Err(LedgerError::Busy)
    } else {
        Ok(accounts[id].position)
    }
}

/// The account map after `op` is recorded as pending for `id`: the
/// position is untouched and the identity's guard is now held.
pub open spec fn spec_set_pending(accounts: Map<u64, Account>, id: u64, op: PendingOp) -> Map<
    u64,
    Account,
> {
    accounts.insert(id, Account { position: accounts[id].position, pending: Some(op) })
}

/// The reward accrued on `activity`'s principal at `now`, clamped to
/// `u64::MAX`.
pub open spec fn spec_reward(position: Position, activity: Activity, now: u64) -> u64 {
    clamp_u64(
        spec_accrue(
            position.spec_principal_of(activity),
            position.spec_checkpoint_of(activity),
            spec_rate_of(activity),
            now,
        ) as int,
    )
}

impl Ledger {
    /// Exactly [`spec_gate`], executably.
    fn gate(&self, id: u64) -> (admitted: Result<Position, LedgerError>)
        requires
            self.wf(),
        ensures
            admitted == spec_gate(self.is_paused(), self.accounts(), id),
    {
        if self.paused {
            return Err(LedgerError::Paused);
        }
        match self.accounts.get(&id) {
            None => Err(LedgerError::NotRegistered),
            Some(account) => {
                if account.pending.is_some() {
                    Err(LedgerError::Busy)
                } else {
                    Ok(account.position)
                }
            },
        }
    }

    /// Records `op` as `id`'s pending operation, acquiring the guard.
    fn set_pending(&mut self, id: u64, op: PendingOp)
        requires
            old(self).wf(),
            old(self).registered(id),
            !old(self).busy(id),
            spec_pending_wf(old(self).position_of(id), op),
        ensures
            final(self).wf(),
            final(self).accounts() == spec_set_pending(old(self).accounts(), id, op),
            final(self).ids() == old(self).ids(),
            final(self).is_paused() == old(self).is_paused(),
            final(self).admin_id() == old(self).admin_id(),
    {
        let position = match self.accounts.get(&id) {
            Some(account) => account.position,
            None => unreached(),
        };
        self.accounts.insert(id, Account { position, pending: Some(op) });
    }

    /// Flips the paused flag on: the admin shuts every mutating operation
    /// off (reads remain available). Only the admin may do this; pausing
    /// an already paused ledger is harmless.
    pub fn pause(&mut self, caller: u64) -> (outcome: Result<(), LedgerError>)
        requires
            old(self).wf(),
        ensures
            final(self).wf(),
            final(self).accounts() == old(self).accounts(),
            final(self).ids() == old(self).ids(),
            final(self).admin_id() == old(self).admin_id(),
            (match outcome {
                Ok(_) => caller == old(self).admin_id() && final(self).is_paused(),
                Err(e) => {
                    &&& e == LedgerError::Unauthorized
                    &&& caller != old(self).admin_id()
                    &&& final(self).is_paused() == old(self).is_paused()
                },
            }),
    {
        if caller != self.admin {
            return Err(LedgerError::Unauthorized);
        }
        self.paused = true;
        proof {
            assert(self.accounts() == old(self).accounts());
        }
        Ok(())
    }

    /// Flips the paused flag off. Only the admin may do this.
    pub fn unpause(&mut self, caller: u64) -> (outcome: Result<(), LedgerError>)
        requires
            old(self).wf(),
        ensures
            final(self).wf(),
            final(self).accounts() == old(self).accounts(),
            final(self).ids() == old(self).ids(),
            final(self).admin_id() == old(self).admin_id(),
            (match outcome {
                Ok(_) => caller == old(self).admin_id() && !final(self).is_paused(),
                Err(e) => {
                    &&& e == LedgerError::Unauthorized
                    &&& caller != old(self).admin_id()
                    &&& final(self).is_paused() == old(self).is_paused()
                },
            }),
    {
        if caller != self.admin {
            return Err(LedgerError::Unauthorized);
        }
        self.paused = false;
        proof {
            assert(self.accounts() == old(self).accounts());
        }
        Ok(())
    }
}

/// Admission for committing `amount` of `available` to `activity`: the
/// available balance must cover the amount plus the fee.
pub open spec fn spec_commit_principal_result(
    paused: bool,
    accounts: Map<u64, Account>,
    id: u64,
    amount: u64,
) -> Result<(), LedgerError> {
    if amount == 0 {
        Err(LedgerError::InvalidAmount)
    } else {
        match spec_gate(paused, accounts, id) {
            Err(e) => Err(e),
            Ok(position) => {
                if position.available < amount + TRANSFER_FEE {
                    Err(LedgerError::InsufficientBalance)
                } else {
                    Ok(())
                }
            },
        }
    }
}

/// The account map after committing `amount` to `activity`: `available`
/// drops by the amount plus the fee, the activity's principal grows by the
/// amount, and its checkpoint restarts at `now`.
pub open spec fn spec_commit_principal_map(
    accounts: Map<u64, Account>,
    id: u64,
    activity: Activity,
    amount: u64,
    now: u64,
) -> Map<u64, Account> {
    let position = accounts[id].position;
    let debited = Position {
        available: (position.available - amount - TRANSFER_FEE) as u64,
        ..position
    };
    let placed = debited.spec_with_activity(
        activity,
        clamp_u64(position.spec_principal_of(activity) + amount),
        Some(now),
    );
    accounts.insert(id, Account { position: placed, pending: None })
}

impl Ledger {
    /// The shared body of `stake`, `lend`, and `yield_farm`: moves value
    /// between two balances the ledger already custodies, so it commits
    /// atomically, with no settlement and no suspension.
    fn commit_principal(&mut self, id: u64, activity: Activity, amount: u64, now: u64) -> (outcome:
        Result<(), LedgerError>)
        requires
            old(self).wf(),
        ensures
            final(self).wf(),
            outcome == spec_commit_principal_result(
                old(self).is_paused(),
                old(self).accounts(),
                id,
                amount,
            ),
            final(self).ids() == old(self).ids(),
            final(self).is_paused() == old(self).is_paused(),
            final(self).admin_id() == old(self).admin_id(),
            (match outcome {
                Ok(_) => final(self).accounts() == spec_commit_principal_map(
                    old(self).accounts(),
                    id,
                    activity,
                    amount,
                    now,
                ),
                Err(_) => same_state(*final(self), *old(self)),
            }),
    {
        if amount == 0 {
            return Err(LedgerError::InvalidAmount);
        }
        let position = match self.gate(id) {
            Ok(position) => position,
            Err(e) => {
                return Err(e);
            },
        };
        if (position.available as u128) < (amount as u128) + (TRANSFER_FEE as u128) {
            return Err(LedgerError::InsufficientBalance);
        }
        let debited = Position {
            available: position.available - amount - TRANSFER_FEE,
            ..position
        };
        let placed = debited.with_activity(
            activity,
            clamp_add(position.principal_of(activity), amount),
            Some(now),
        );
        self.accounts.insert(id, Account { position: placed, pending: None });
        proof {
            lemma_placed_wf(position, activity, amount, now);
        }
        Ok(())
    }

    /// Commits `amount` of the available balance to staking: `available`
    /// drops by `amount` plus the fee, `staked` grows by `amount`, and the
    /// stake checkpoint restarts at `now`.
    pub fn stake(&mut self, id: u64, amount: u64, now: u64) -> (outcome: Result<(), LedgerError>)
        requires
            old(self).wf(),
        ensures
            final(self).wf(),
            outcome == spec_commit_principal_result(
                old(self).is_paused(),
                old(self).accounts(),
                id,
                amount,
            ),
            final(self).ids() == old(self).ids(),
            final(self).is_paused() == old(self).is_paused(),
            final(self).admin_id() == old(self).admin_id(),
            (match outcome {
                Ok(_) => final(self).accounts() == spec_commit_principal_map(
                    old(self).accounts(),
                    id,
                    Activity::Stake,
                    amount,
                    now,
                ),
                Err(_) => same_state(*final(self), *old(self)),
            }),
    {
        self.commit_principal(id, Activity::Stake, amount, now)
    }

    /// Commits `amount` of the available balance to lending; otherwise as
    /// [`Ledger::stake`].
    pub fn lend(&mut self, id: u64, amount: u64, now: u64) -> (outcome: Result<(), LedgerError>)
        requires
            old(self).wf(),
        ensures
            final(self).wf(),
            outcome == spec_commit_principal_result(
                old(self).is_paused(),
                old(self).accounts(),
                id,
                amount,
            ),
            final(self).ids() == old(self).ids(),
            final(self).is_paused() == old(self).is_paused(),
            final(self).admin_id() == old(self).admin_id(),
            (match outcome {
                Ok(_) => final(self).accounts() == spec_commit_principal_map(
                    old(self).accounts(),
                    id,
                    Activity::Lend,
                    amount,
                    now,
                ),
                Err(_) => same_state(*final(self), *old(self)),
            }),
    {
        self.commit_principal(id, Activity::Lend, amount, now)
    }

    /// Commits `amount` of the available balance to yield farming;
    /// otherwise as [`Ledger::stake`].
    pub fn yield_farm(&mut self, id: u64, amount: u64, now: u64) -> (outcome: Result<
        (),
        LedgerError,
    >)
        requires
            old(self).wf(),
        ensures
            final(self).wf(),
            outcome == spec_commit_principal_result(
                old(self).is_paused(),
                old(self).accounts(),
                id,
                amount,
            ),
            final(self).ids() == old(self).ids(),
            final(self).is_paused() == old(self).is_paused(),
            final(self).admin_id() == old(self).admin_id(),
            (match outcome {
                Ok(_) => final(self).accounts() == spec_commit_principal_map(
                    old(self).accounts(),
                    id,
                    Activity::Farm,
                    amount,
                    now,
                ),
                Err(_) => same_state(*final(self), *old(self)),
            }),
    {
        self.commit_principal(id, Activity::Farm, amount, now)
    }
}

/// A position stays well-formed when principal is committed to an
/// activity: the new principal is positive, so its fresh checkpoint is
/// justified, and no other pair is touched.
proof fn lemma_placed_wf(position: Position, activity: Activity, amount: u64, now: u64)
    requires
        position.wf(),
        amount > 0,
        position.available >= amount + TRANSFER_FEE,
    ensures
        ({
            let debited = Position {
                available: (position.available - amount - TRANSFER_FEE) as u64,
                ..position
            };
            let placed = debited.spec_with_activity(
                activity,
                clamp_u64(position.spec_principal_of(activity) + amount),
                Some(now),
            );
            placed.wf() && placed.identity == position.identity
        }),
{
    match activity {
        Activity::Stake => {},
        Activity::Lend => {},
        Activity::Farm => {},
    }
}


/// Admission and action for a deposit of `amount`: anything above the fee
/// can be deposited; the whole amount is pulled in, and the fee is deducted
/// from what is credited.
pub open spec fn spec_deposit_result(
    paused: bool,
    accounts: Map<u64, Account>,
    id: u64,
    amount: u64,
) -> Result<SettlementAction, LedgerError> {
    if amount == 0 {
        Err(LedgerError::InvalidAmount)
    } else {
        match spec_gate(paused, accounts, id) {
            Err(e) => Err(e),
            Ok(position) => {
                if amount <= TRANSFER_FEE {
                    Err(LedgerError::InvalidAmount)
                } else {
                    Ok(SettlementAction::PullIn { owner: id, amount })
                }
            },
        }
    }
}

/// Admission and action for a withdrawal of `amount`: the available
/// balance must cover the amount plus the fee; `amount` is pushed out.
pub open spec fn spec_withdraw_result(
    paused: bool,
    accounts: Map<u64, Account>,
    id: u64,
    amount: u64,
) -> Result<SettlementAction, LedgerError> {
    if amount == 0 {
        Err(LedgerError::InvalidAmount)
    } else {
        match spec_gate(paused, accounts, id) {
            Err(e) => Err(e),
            Ok(position) => {
                if position.available < amount + TRANSFER_FEE {
                    Err(LedgerError::InsufficientBalance)
                } else {
                    Ok(SettlementAction::PushOut { owner: id, amount })
                }
            },
        }
    }
}

/// Admission and action for borrowing `amount`: the collateral base must
/// cover `COLLATERAL_RATIO` times the amount (the boundary qualifies);
/// `amount` is pushed out.
pub open spec fn spec_borrow_result(
    paused: bool,
    accounts: Map<u64, Account>,
    id: u64,
    amount: u64,
) -> Result<SettlementAction, LedgerError> {
    if amount == 0 {
        Err(LedgerError::InvalidAmount)
    } else {
        match spec_gate(paused, accounts, id) {
            Err(e) => Err(e),
            Ok(position) => {
                if !spec_can_borrow(position, amount) {
                    Err(LedgerError::InsufficientCollateral)
                } else {
                    Ok(SettlementAction::PushOut { owner: id, amount })
                }
            },
        }
    }
}

/// Admission and action for repaying `amount` at `now`: no more than the
/// outstanding debt (principal plus accrued interest) may be repaid; the
/// amount plus the fee is pulled in.
pub open spec fn spec_repay_result(
    paused: bool,
    accounts: Map<u64, Account>,
    id: u64,
    amount: u64,
    now: u64,
) -> Result<SettlementAction, LedgerError> {
    if amount == 0 {
        Err(LedgerError::InvalidAmount)
    } else {
        match spec_gate(paused, accounts, id) {
            Err(e) => Err(e),
            Ok(position) => {
                if amount as nat > spec_outstanding_debt(position, now) {
                    Err(LedgerError::ExceedsDebt)
                } else {
                    Ok(
                        SettlementAction::PullIn {
                            owner: id,
                            amount: clamp_u64(amount + TRANSFER_FEE),
                        },
                    )
                }
            },
        }
    }
}

/// Admission and action for releasing `amount` from `activity` at `now`:
/// the committed principal must cover the amount plus the fee; the amount
/// plus the accrued reward is pushed out.
pub open spec fn spec_release_result(
    paused: bool,
    accounts: Map<u64, Account>,
    id: u64,
    activity: Activity,
    amount: u64,
    now: u64,
) -> Result<SettlementAction, LedgerError> {
    if amount == 0 {
        Err(LedgerError::InvalidAmount)
    } else {
        match spec_gate(paused, accounts, id) {
            Err(e) => Err(e),
            Ok(position) => {
                if position.spec_principal_of(activity) < amount + TRANSFER_FEE {
                    Err(LedgerError::InsufficientPrincipal)
                } else {
                    Ok(
                        SettlementAction::PushOut {
                            owner: id,
                            amount: clamp_u64(amount + spec_reward(position, activity, now)),
                        },
                    )
                }
            },
        }
    }
}

/// Admission and action for claiming `activity`'s reward at `now`: some
/// reward must have accrued, and the principal must cover the fee; the
/// reward is pushed out.
pub open spec fn spec_claim_result(
    paused: bool,
    accounts: Map<u64, Account>,
    id: u64,
    activity: Activity,
    now: u64,
) -> Result<SettlementAction, LedgerError> {
    match spec_gate(paused, accounts, id) {
        Err(e) => Err(e),
        Ok(position) => {
            if spec_reward(position, activity, now) == 0 {
                Err(LedgerError::NothingToClaim)
            } else if position.spec_principal_of(activity) < TRANSFER_FEE {
                Err(LedgerError::InsufficientPrincipal)
            } else {
                Ok(
                    SettlementAction::PushOut {
                        owner: id,
                        amount: spec_reward(position, activity, now),
                    },
                )
            }
        },
    }
}

/// Everything an emergency withdrawal pays out before the fee: the whole
/// position plus every accrued reward.
pub open spec fn spec_emergency_total(position: Position, now: u64) -> int {
    position.available + position.staked + position.lent + position.farmed + spec_reward(
        position,
        Activity::Stake,
        now,
    ) + spec_reward(position, Activity::Lend, now) + spec_reward(position, Activity::Farm, now)
}

/// Admission and action for an emergency withdrawal at `now`: nothing may
/// be borrowed, and the total must exceed the fee; the total minus the fee
/// is pushed out.
pub open spec fn spec_emergency_result(
    paused: bool,
    accounts: Map<u64, Account>,
    id: u64,
    now: u64,
) -> Result<SettlementAction, LedgerError> {
    match spec_gate(paused, accounts, id) {
        Err(e) => Err(e),
        Ok(position) => {
            if position.borrowed > 0 {
                Err(LedgerError::DebtOutstanding)
            } else if spec_emergency_total(position, now) <= TRANSFER_FEE {
                Err(LedgerError::InsufficientBalance)
            } else {
                Ok(
                    SettlementAction::PushOut {
                        owner: id,
                        amount: clamp_u64(spec_emergency_total(position, now) - TRANSFER_FEE),
                    },
                )
            }
        },
    }
}

/// What a settlement report returns: the transaction id when the transfer
/// was confirmed, the surfaced failure otherwise. Nothing is reportable
/// for an identity without a settlement in flight.
pub open spec fn spec_settle_result(
    accounts: Map<u64, Account>,
    id: u64,
    outcome: SettlementOutcome,
) -> Result<u64, LedgerError> {
    if !accounts.contains_key(id) {
        Err(LedgerError::NotRegistered)
    } else {
        match accounts[id].pending {
            None => Err(LedgerError::NoPendingSettlement),
            Some(op) => match outcome {
                SettlementOutcome::Confirmed { txid } => Ok(txid),
                SettlementOutcome::Rejected { failure } => Err(
                    LedgerError::SettlementFailed(failure),
                ),
                SettlementOutcome::TransportFailed => Err(LedgerError::TransportFailure),
            },
        }
    }
}

/// The account map after a settlement report: the pending operation
/// commits exactly when the transfer was confirmed, the position stays
/// untouched otherwise, and the guard is released on every path.
pub open spec fn spec_settle_map(
    accounts: Map<u64, Account>,
    id: u64,
    outcome: SettlementOutcome,
    now: u64,
) -> Map<u64, Account> {
    if !accounts.contains_key(id) {
        accounts
    } else {
        match accounts[id].pending {
            None => accounts,
            Some(op) => {
                let position = match outcome {
                    SettlementOutcome::Confirmed { txid } => spec_commit(
                        accounts[id].position,
                        op,
                        now,
                    ),
                    SettlementOutcome::Rejected { failure } => accounts[id].position,
                    SettlementOutcome::TransportFailed => accounts[id].position,
                };
                accounts.insert(id, Account { position, pending: None })
            },
        }
    }
}

impl Ledger {
    /// The reward accrued on `activity`'s principal at `now`; exactly
    /// [`spec_reward`].
    fn reward_of(position: &Position, activity: Activity, now: u64) -> (reward: u64)
        ensures
            reward == spec_reward(*position, activity, now),
    {
        crate::accrual::accrue(
            position.principal_of(activity),
            position.checkpoint_of(activity),
            rate_of(activity),
            now,
        )
    }

    /// Admits a deposit of `amount` and suspends it on a pull of the whole
    /// amount from `id`'s external account; the fee is deducted from what
    /// the commit credits.
    pub fn deposit_begin(&mut self, id: u64, amount: u64) -> (outcome: Result<
        SettlementAction,
        LedgerError,
    >)
        requires
            old(self).wf(),
        ensures
            final(self).wf(),
            outcome == spec_deposit_result(old(self).is_paused(), old(self).accounts(), id, amount),
            final(self).ids() == old(self).ids(),
            final(self).is_paused() == old(self).is_paused(),
            final(self).admin_id() == old(self).admin_id(),
            (match outcome {
                Ok(_) => final(self).accounts() == spec_set_pending(
                    old(self).accounts(),
                    id,
                    PendingOp::Deposit { amount },
                ),
                Err(_) => same_state(*final(self), *old(self)),
            }),
    {
        if amount == 0 {
            return Err(LedgerError::InvalidAmount);
        }
        let position = match self.gate(id) {
            Ok(position) => position,
            Err(e) => {
                return Err(e);
            },
        };
        if amount <= TRANSFER_FEE {
            return Err(LedgerError::InvalidAmount);
        }
        self.set_pending(id, PendingOp::Deposit { amount });
        Ok(SettlementAction::PullIn { owner: id, amount })
    }

    /// Admits a withdrawal of `amount` and suspends it on a push of the
    /// amount out to `id`'s external account; the commit debits the amount
    /// plus the fee.
    pub fn withdraw_begin(&mut self, id: u64, amount: u64) -> (outcome: Result<
        SettlementAction,
        LedgerError,
    >)
        requires
            old(self).wf(),
        ensures
            final(self).wf(),
            outcome == spec_withdraw_result(
                old(self).is_paused(),
                old(self).accounts(),
                id,
                amount,
            ),
            final(self).ids() == old(self).ids(),
            final(self).is_paused() == old(self).is_paused(),
            final(self).admin_id() == old(self).admin_id(),
            (match outcome {
                Ok(_) => final(self).accounts() == spec_set_pending(
                    old(self).accounts(),
                    id,
                    PendingOp::Withdraw { amount },
                ),
                Err(_) => same_state(*final(self), *old(self)),
            }),
    {
        if amount == 0 {
            return Err(LedgerError::InvalidAmount);
        }
        let position = match self.gate(id) {
            Ok(position) => position,
            Err(e) => {
                return Err(e);
            },
        };
        if (position.available as u128) < (amount as u128) + (TRANSFER_FEE as u128) {
            return Err(LedgerError::InsufficientBalance);
        }
        self.set_pending(id, PendingOp::Withdraw { amount });
        Ok(SettlementAction::PushOut { owner: id, amount })
    }

    /// Admits borrowing `amount` against the collateral base and suspends
    /// it on a push of the amount out to `id`'s external account; the
    /// commit records the loan and credits the amount.
    pub fn borrow_begin(&mut self, id: u64, amount: u64) -> (outcome: Result<
        SettlementAction,
        LedgerError,
    >)
        requires
            old(self).wf(),
        ensures
            final(self).wf(),
            outcome == spec_borrow_result(old(self).is_paused(), old(self).accounts(), id, amount),
            final(self).ids() == old(self).ids(),
            final(self).is_paused() == old(self).is_paused(),
            final(self).admin_id() == old(self).admin_id(),
            (match outcome {
                Ok(_) => final(self).accounts() == spec_set_pending(
                    old(self).accounts(),
                    id,
                    PendingOp::Borrow { amount },
                ),
                Err(_) => same_state(*final(self), *old(self)),
            }),
    {
        if amount == 0 {
            return Err(LedgerError::InvalidAmount);
        }
        let position = match self.gate(id) {
            Ok(position) => position,
            Err(e) => {
                return Err(e);
            },
        };
        if !can_borrow(&position, amount) {
            return Err(LedgerError::InsufficientCollateral);
        }
        self.set_pending(id, PendingOp::Borrow { amount });
        Ok(SettlementAction::PushOut { owner: id, amount })
    }

    /// Admits repaying `amount` of the outstanding debt at `now` and
    /// suspends it on a pull of the amount plus the fee from `id`'s
    /// external account; the commit retires up to `amount` of the borrowed
    /// principal.
    pub fn repay_begin(&mut self, id: u64, amount: u64, now: u64) -> (outcome: Result<
        SettlementAction,
        LedgerError,
    >)
        requires
            old(self).wf(),
        ensures
            final(self).wf(),
            outcome == spec_repay_result(
                old(self).is_paused(),
                old(self).accounts(),
                id,
                amount,
                now,
            ),
            final(self).ids() == old(self).ids(),
            final(self).is_paused() == old(self).is_paused(),
            final(self).admin_id() == old(self).admin_id(),
            (match outcome {
                Ok(_) => final(self).accounts() == spec_set_pending(
                    old(self).accounts(),
                    id,
                    PendingOp::Repay { amount },
                ),
                Err(_) => same_state(*final(self), *old(self)),
            }),
    {
        if amount == 0 {
            return Err(LedgerError::InvalidAmount);
        }
        let position = match self.gate(id) {
            Ok(position) => position,
            Err(e) => {
                return Err(e);
            },
        };
        let debt = outstanding_debt(&position, now);
        if amount > debt {
            return Err(LedgerError::ExceedsDebt);
        }
        proof {
            if position.borrowed == 0 {
                assert(spec_outstanding_debt(position, now) == 0);
            }
        }
        self.set_pending(id, PendingOp::Repay { amount });
        Ok(SettlementAction::PullIn { owner: id, amount: clamp_add(amount, TRANSFER_FEE) })
    }

    /// The shared body of `unstake_begin`, `unlend_begin`, and
    /// `unfarm_begin`: admits releasing `amount` from `activity` and
    /// suspends it on a push of the amount plus the accrued reward out to
    /// `id`'s external account.
    fn release_begin(&mut self, id: u64, activity: Activity, amount: u64, now: u64) -> (outcome:
        Result<SettlementAction, LedgerError>)
        requires
            old(self).wf(),
        ensures
            final(self).wf(),
            outcome == spec_release_result(
                old(self).is_paused(),
                old(self).accounts(),
                id,
                activity,
                amount,
                now,
            ),
            final(self).ids() == old(self).ids(),
            final(self).is_paused() == old(self).is_paused(),
            final(self).admin_id() == old(self).admin_id(),
            (match outcome {
                Ok(_) => final(self).accounts() == spec_set_pending(
                    old(self).accounts(),
                    id,
                    PendingOp::Release {
                        activity,
                        amount,
                        reward: spec_reward(old(self).position_of(id), activity, now),
                    },
                ),
                Err(_) => same_state(*final(self), *old(self)),
            }),
    {
        if amount == 0 {
            return Err(LedgerError::InvalidAmount);
        }
        let position = match self.gate(id) {
            Ok(position) => position,
            Err(e) => {
                return Err(e);
            },
        };
        if (position.principal_of(activity) as u128) < (amount as u128) + (TRANSFER_FEE as u128) {
            return Err(LedgerError::InsufficientPrincipal);
        }
        let reward = Self::reward_of(&position, activity, now);
        self.set_pending(id, PendingOp::Release { activity, amount, reward });
        Ok(SettlementAction::PushOut { owner: id, amount: clamp_add(amount, reward) })
    }

    /// Admits releasing `amount` of the staked principal; the commit debits
    /// the principal by the amount plus the fee, credits the amount plus
    /// the accrued reward, and restarts or clears the checkpoint.
    pub fn unstake_begin(&mut self, id: u64, amount: u64, now: u64) -> (outcome: Result<
        SettlementAction,
        LedgerError,
    >)
        requires
            old(self).wf(),
        ensures
            final(self).wf(),
            outcome == spec_release_result(
                old(self).is_paused(),
                old(self).accounts(),
                id,
                Activity::Stake,
                amount,
                now,
            ),
            final(self).ids() == old(self).ids(),
            final(self).is_paused() == old(self).is_paused(),
            final(self).admin_id() == old(self).admin_id(),
            (match outcome {
                Ok(_) => final(self).accounts() == spec_set_pending(
                    old(self).accounts(),
                    id,
                    PendingOp::Release {
                        activity: Activity::Stake,
                        amount,
                        reward: spec_reward(old(self).position_of(id), Activity::Stake, now),
                    },
                ),
                Err(_) => same_state(*final(self), *old(self)),
            }),
    {
        self.release_begin(id, Activity::Stake, amount, now)
    }

    /// Admits releasing `amount` of the lent principal; otherwise as
    /// [`Ledger::unstake_begin`].
    pub fn unlend_begin(&mut self, id: u64, amount: u64, now: u64) -> (outcome: Result<
        SettlementAction,
        LedgerError,
    >)
        requires
            old(self).wf(),
        ensures
            final(self).wf(),
            outcome == spec_release_result(
                old(self).is_paused(),
                old(self).accounts(),
                id,
                Activity::Lend,
                amount,
                now,
            ),
            final(self).ids() == old(self).ids(),
            final(self).is_paused() == old(self).is_paused(),
            final(self).admin_id() == old(self).admin_id(),
            (match outcome {
                Ok(_) => final(self).accounts() == spec_set_pending(
                    old(self).accounts(),
                    id,
                    PendingOp::Release {
                        activity: Activity::Lend,
                        amount,
                        reward: spec_reward(old(self).position_of(id), Activity::Lend, now),
                    },
                ),
                Err(_) => same_state(*final(self), *old(self)),
            }),
    {
        self.release_begin(id, Activity::Lend, amount, now)
    }

    /// Admits releasing `amount` of the yield-farming principal; otherwise
    /// as [`Ledger::unstake_begin`].
    pub fn unfarm_begin(&mut self, id: u64, amount: u64, now: u64) -> (outcome: Result<
        SettlementAction,
        LedgerError,
    >)
        requires
            old(self).wf(),
        ensures
            final(self).wf(),
            outcome == spec_release_result(
                old(self).is_paused(),
                old(self).accounts(),
                id,
                Activity::Farm,
                amount,
                now,
            ),
            final(self).ids() == old(self).ids(),
            final(self).is_paused() == old(self).is_paused(),
            final(self).admin_id() == old(self).admin_id(),
            (match outcome {
                Ok(_) => final(self).accounts() == spec_set_pending(
                    old(self).accounts(),
                    id,
                    PendingOp::Release {
                        activity: Activity::Farm,
                        amount,
                        reward: spec_reward(old(self).position_of(id), Activity::Farm, now),
                    },
                ),
                Err(_) => same_state(*final(self), *old(self)),
            }),
    {
        self.release_begin(id, Activity::Farm, amount, now)
    }

    /// The shared body of the claim operations: admits claiming
    /// `activity`'s accrued reward and suspends it on a push of the reward
    /// out to `id`'s external account; the fee comes out of the principal.
    fn claim_begin(&mut self, id: u64, activity: Activity, now: u64) -> (outcome: Result<
        SettlementAction,
        LedgerError,
    >)
        requires
            old(self).wf(),
        ensures
            final(self).wf(),
            outcome == spec_claim_result(
                old(self).is_paused(),
                old(self).accounts(),
                id,
                activity,
                now,
            ),
            final(self).ids() == old(self).ids(),
            final(self).is_paused() == old(self).is_paused(),
            final(self).admin_id() == old(self).admin_id(),
            (match outcome {
                Ok(_) => final(self).accounts() == spec_set_pending(
                    old(self).accounts(),
                    id,
                    PendingOp::Claim {
                        activity,
                        reward: spec_reward(old(self).position_of(id), activity, now),
                    },
                ),
                Err(_) => same_state(*final(self), *old(self)),
            }),
    {
        let position = match self.gate(id) {
            Ok(position) => position,
            Err(e) => {
                return Err(e);
            },
        };
        let reward = Self::reward_of(&position, activity, now);
        if reward == 0 {
            return Err(LedgerError::NothingToClaim);
        }
        if position.principal_of(activity) < TRANSFER_FEE {
            return Err(LedgerError::InsufficientPrincipal);
        }
        self.set_pending(id, PendingOp::Claim { activity, reward });
        Ok(SettlementAction::PushOut { owner: id, amount: reward })
    }

    /// Admits claiming the accrued staking reward; the commit debits the
    /// fee from the staked principal, credits the reward, and restarts the
    /// checkpoint.
    pub fn claim_staking_begin(&mut self, id: u64, now: u64) -> (outcome: Result<
        SettlementAction,
        LedgerError,
    >)
        requires
            old(self).wf(),
        ensures
            final(self).wf(),
            outcome == spec_claim_result(
                old(self).is_paused(),
                old(self).accounts(),
                id,
                Activity::Stake,
                now,
            ),
            final(self).ids() == old(self).ids(),
            final(self).is_paused() == old(self).is_paused(),
            final(self).admin_id() == old(self).admin_id(),
            (match outcome {
                Ok(_) => final(self).accounts() == spec_set_pending(
                    old(self).accounts(),
                    id,
                    PendingOp::Claim {
                        activity: Activity::Stake,
                        reward: spec_reward(old(self).position_of(id), Activity::Stake, now),
                    },
                ),
                Err(_) => same_state(*final(self), *old(self)),
            }),
    {
        self.claim_begin(id, Activity::Stake, now)
    }

    /// Admits claiming the accrued lending reward; otherwise as
    /// [`Ledger::claim_staking_begin`].
    pub fn claim_lending_begin(&mut self, id: u64, now: u64) -> (outcome: Result<
        SettlementAction,
        LedgerError,
    >)
        requires
            old(self).wf(),
        ensures
            final(self).wf(),
            outcome == spec_claim_result(
                old(self).is_paused(),
                old(self).accounts(),
                id,
                Activity::Lend,
                now,
            ),
            final(self).ids() == old(self).ids(),
            final(self).is_paused() == old(self).is_paused(),
            final(self).admin_id() == old(self).admin_id(),
            (match outcome {
                Ok(_) => final(self).accounts() == spec_set_pending(
                    old(self).accounts(),
                    id,
                    PendingOp::Claim {
                        activity: Activity::Lend,
                        reward: spec_reward(old(self).position_of(id), Activity::Lend, now),
                    },
                ),
                Err(_) => same_state(*final(self), *old(self)),
            }),
    {
        self.claim_begin(id, Activity::Lend, now)
    }

    /// Admits claiming the accrued yield-farming reward; otherwise as
    /// [`Ledger::claim_staking_begin`].
    pub fn claim_farming_begin(&mut self, id: u64, now: u64) -> (outcome: Result<
        SettlementAction,
        LedgerError,
    >)
        requires
            old(self).wf(),
        ensures
            final(self).wf(),
            outcome == spec_claim_result(
                old(self).is_paused(),
                old(self).accounts(),
                id,
                Activity::Farm,
                now,
            ),
            final(self).ids() == old(self).ids(),
            final(self).is_paused() == old(self).is_paused(),
            final(self).admin_id() == old(self).admin_id(),
            (match outcome {
                Ok(_) => final(self).accounts() == spec_set_pending(
                    old(self).accounts(),
                    id,
                    PendingOp::Claim {
                        activity: Activity::Farm,
                        reward: spec_reward(old(self).position_of(id), Activity::Farm, now),
                    },
                ),
                Err(_) => same_state(*final(self), *old(self)),
            }),
    {
        self.claim_begin(id, Activity::Farm, now)
    }

    /// Admits withdrawing everything — balance, principals, and accrued
    /// rewards, minus the fee — while nothing is borrowed, and suspends it
    /// on a push of that total out to `id`'s external account; the commit
    /// zeroes the position (the entry is retained).
    pub fn emergency_withdraw_begin(&mut self, id: u64, now: u64) -> (outcome: Result<
        SettlementAction,
        LedgerError,
    >)
        requires
            old(self).wf(),
        ensures
            final(self).wf(),
            outcome == spec_emergency_result(old(self).is_paused(), old(self).accounts(), id, now),
            final(self).ids() == old(self).ids(),
            final(self).is_paused() == old(self).is_paused(),
            final(self).admin_id() == old(self).admin_id(),
            (match outcome {
                Ok(_) => final(self).accounts() == spec_set_pending(
                    old(self).accounts(),
                    id,
                    PendingOp::Emergency {
                        amount: clamp_u64(
                            spec_emergency_total(old(self).position_of(id), now) - TRANSFER_FEE,
                        ),
                    },
                ),
                Err(_) => same_state(*final(self), *old(self)),
            }),
    {
        let position = match self.gate(id) {
            Ok(position) => position,
            Err(e) => {
                return Err(e);
            },
        };
        if position.borrowed > 0 {
            return Err(LedgerError::DebtOutstanding);
        }
        let total: u128 = (position.available as u128) + (position.staked as u128) + (
        position.lent as u128) + (position.farmed as u128) + (Self::reward_of(
            &position,
            Activity::Stake,
            now,
        ) as u128) + (Self::reward_of(&position, Activity::Lend, now) as u128) + (Self::reward_of(
            &position,
            Activity::Farm,
            now,
        ) as u128);
        if total <= TRANSFER_FEE as u128 {
            return Err(LedgerError::InsufficientBalance);
        }
        let net: u128 = total - (TRANSFER_FEE as u128);
        let amount: u64 = if net > (u64::MAX as u128) {
            u64::MAX
        } else {
            net as u64
        };
        self.set_pending(id, PendingOp::Emergency { amount });
        Ok(SettlementAction::PushOut { owner: id, amount })
    }

    /// Resolves `id`'s suspended operation with the settlement's outcome:
    /// the recorded operation commits against the current position exactly
    /// when the transfer was confirmed, nothing changes otherwise, and the
    /// identity's guard is released on every path. An in-flight settlement
    /// runs to completion, so a pause does not block its commit.
    pub fn settle(&mut self, id: u64, outcome: SettlementOutcome, now: u64) -> (settled: Result<
        u64,
        LedgerError,
    >)
        requires
            old(self).wf(),
        ensures
            final(self).wf(),
            settled == spec_settle_result(old(self).accounts(), id, outcome),
            final(self).accounts() == spec_settle_map(old(self).accounts(), id, outcome, now),
            final(self).ids() == old(self).ids(),
            final(self).is_paused() == old(self).is_paused(),
            final(self).admin_id() == old(self).admin_id(),
    {
        let account = match self.accounts.get(&id) {
            Some(account) => *account,
            None => {
                return Err(LedgerError::NotRegistered);
            },
        };
        let op = match account.pending {
            Some(op) => op,
            None => {
                return Err(LedgerError::NoPendingSettlement);
            },
        };
        match outcome {
            SettlementOutcome::Confirmed { txid } => {
                let committed = commit(account.position, op, now);
                proof {
                    lemma_commit_preserves_wf(account.position, op, now);
                }
                self.accounts.insert(id, Account { position: committed, pending: None });
                Ok(txid)
            },
            SettlementOutcome::Rejected { failure } => {
                self.accounts.insert(id, Account { position: account.position, pending: None });
                Err(LedgerError::SettlementFailed(failure))
            },
            SettlementOutcome::TransportFailed => {
                self.accounts.insert(id, Account { position: account.position, pending: None });
                Err(LedgerError::TransportFailure)
            },
        }
    }
}

/// While one borrow is suspended on its settlement, a second borrow for
/// the same identity — issued before the first resumes — is rejected with
/// `Busy` and changes nothing, whatever its amount: at most one of the two
/// can ever commit.
pub proof fn lemma_guard_excludes_second_borrow(
    paused: bool,
    accounts: Map<u64, Account>,
    id: u64,
    first: u64,
    second: u64,
)
    requires
        spec_borrow_result(paused, accounts, id, first) is Ok,
        second > 0,
    ensures
        spec_borrow_result(
            paused,
            spec_set_pending(accounts, id, PendingOp::Borrow { amount: first }),
            id,
            second,
        ) == Err::<SettlementAction, LedgerError>(LedgerError::Busy),
{
}

} // verus!
