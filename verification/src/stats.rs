//! Read-only queries: pending rewards, outstanding debt, health factor,
//! and platform-wide totals. All of them remain available while the ledger
//! is paused, and none of them touches a guard.

use vstd::prelude::*;

use vstd::arithmetic::mul::lemma_mul_inequality;

use crate::accrual::accrue;
use crate::accrual::clamp_u64;
use crate::errors::LedgerError;
use crate::policy::health_factor;
use crate::policy::outstanding_debt;
use crate::policy::spec_outstanding_debt;
use crate::policy::HealthFactor;
use crate::position::rate_of;
use crate::position::Activity;
use crate::service::spec_reward;
use crate::store::Account;
use crate::store::Ledger;

verus! {

broadcast use vstd::std_specs::hash::group_hash_axioms;

/// Platform-wide totals over every registered position.
#[derive(Clone, Copy, Debug, PartialEq, Eq, Structural)]
pub struct PlatformStats {
    /// How many identities are registered.
    pub users: usize,
    /// The sum of every `available` balance.
    pub total_available: u128,
    /// The sum of every staked principal.
    pub total_staked: u128,
    /// The sum of every lent principal.
    pub total_lent: u128,
    /// The sum of every yield-farming principal.
    pub total_farmed: u128,
    /// The sum of every borrowed principal.
    pub total_borrowed: u128,
}

/// The sums of the five position fields over the identities in `ids`, in
/// order: available, staked, lent, farmed, borrowed.
pub open spec fn spec_totals(accounts: Map<u64, Account>, ids: Seq<u64>) -> (
    int,
    int,
    int,
    int,
    int,
)
    decreases ids.len(),
{
    if ids.len() == 0 {
        (0, 0, 0, 0, 0)
    } else {
        let rest = spec_totals(accounts, ids.drop_first());
        let position = accounts[ids[0]].position;
        (
            position.available + rest.0,
            position.staked + rest.1,
            position.lent + rest.2,
            position.farmed + rest.3,
            position.borrowed + rest.4,
        )
    }
}

impl Ledger {
    /// The reward accrued but not yet realized on `id`'s principal in
    /// `activity`, at time `now`. Available while paused.
    pub fn get_pending_rewards(&self, id: u64, activity: Activity, now: u64) -> (rewards: Result<
        u64,
        LedgerError,
    >)
        requires
            self.wf(),
        ensures
            rewards == (if self.registered(id) {
                Ok::<u64, LedgerError>(spec_reward(self.position_of(id), activity, now))
            } else {
                Err::<u64, LedgerError>(LedgerError::NotRegistered)
            }),
    {
        match self.accounts.get(&id) {
            Some(account) => Ok(
                accrue(
                    account.position.principal_of(activity),
                    account.position.checkpoint_of(activity),
                    rate_of(activity),
                    now,
                ),
            ),
            None => Err(LedgerError::NotRegistered),
        }
    }

    /// `id`'s outstanding debt at `now`: the borrowed principal plus the
    /// interest accrued on it, clamped to `u64::MAX`. Available while
    /// paused.
    pub fn get_loan_debt(&self, id: u64, now: u64) -> (debt: Result<u64, LedgerError>)
        requires
            self.wf(),
        ensures
            debt == (if self.registered(id) {
                Ok::<u64, LedgerError>(
                    clamp_u64(spec_outstanding_debt(self.position_of(id), now) as int),
                )
            } else {
                Err::<u64, LedgerError>(LedgerError::NotRegistered)
            }),
    {
        match self.accounts.get(&id) {
            Some(account) => Ok(outstanding_debt(&account.position, now)),
            None => Err(LedgerError::NotRegistered),
        }
    }

    /// `id`'s health factor at `now`: `NoDebt` when nothing is borrowed,
    /// otherwise the exact collateral base over the outstanding debt.
    /// Available while paused.
    pub fn get_health_factor(&self, id: u64, now: u64) -> (health: Result<
        HealthFactor,
        LedgerError,
    >)
        requires
            self.wf(),
        ensures
            health == (if self.registered(id) {
                Ok::<HealthFactor, LedgerError>(
                    if self.position_of(id).borrowed == 0 {
                        HealthFactor::NoDebt
                    } else {
                        HealthFactor::Ratio {
                            collateral: self.position_of(id).spec_collateral_base() as u128,
                            debt: clamp_u64(spec_outstanding_debt(self.position_of(id), now) as int),
                        }
                    },
                )
            } else {
                Err::<HealthFactor, LedgerError>(LedgerError::NotRegistered)
            }),
    {
        match self.accounts.get(&id) {
            Some(account) => Ok(health_factor(&account.position, now)),
            None => Err(LedgerError::NotRegistered),
        }
    }

    /// Exact totals over every registered position, and the number of
    /// registered identities. Available while paused.
    pub fn get_platform_stats(&self) -> (stats: PlatformStats)
        requires
            self.wf(),
        ensures
            stats.users == self.ids().len(),
            ({
                let totals = spec_totals(self.accounts(), self.ids());
                &&& stats.total_available == totals.0
                &&& stats.total_staked == totals.1
                &&& stats.total_lent == totals.2
                &&& stats.total_farmed == totals.3
                &&& stats.total_borrowed == totals.4
            }),
    {
        let ghost all_ids = self.ids@;
        let mut total_available: u128 = 0;
        let mut total_staked: u128 = 0;
        let mut total_lent: u128 = 0;
        let mut total_farmed: u128 = 0;
        let mut total_borrowed: u128 = 0;
        let mut index: usize = 0;
        let count = self.ids.len();
        proof {
            assert(all_ids.skip(0) =~= all_ids);
        }
        while index < count
            invariant
                self.wf(),
                count == all_ids.len(),
                all_ids == self.ids@,
                0 <= index <= count,
                total_available <= index * (u64::MAX as int),
                total_staked <= index * (u64::MAX as int),
                total_lent <= index * (u64::MAX as int),
                total_farmed <= index * (u64::MAX as int),
                total_borrowed <= index * (u64::MAX as int),
                ({
                    let totals = spec_totals(self.accounts(), all_ids);
                    let remaining = spec_totals(self.accounts(), all_ids.skip(index as int));
                    &&& total_available + remaining.0 == totals.0
                    &&& total_staked + remaining.1 == totals.1
                    &&& total_lent + remaining.2 == totals.2
                    &&& total_farmed + remaining.3 == totals.3
                    &&& total_borrowed + remaining.4 == totals.4
                }),
            decreases count - index,
        {
            let id = self.ids[index];
            proof {
                assert(all_ids[index as int] == id);
                assert(all_ids.contains(id));
                lemma_totals_step(self.accounts(), all_ids, index as int);
                lemma_sum_step_bound(index as int, count as int);
            }
            let account = match self.accounts.get(&id) {
                Some(account) => account,
                None => unreached(),
            };
            total_available = total_available + (account.position.available as u128);
            total_staked = total_staked + (account.position.staked as u128);
            total_lent = total_lent + (account.position.lent as u128);
            total_farmed = total_farmed + (account.position.farmed as u128);
            total_borrowed = total_borrowed + (account.position.borrowed as u128);
            index = index + 1;
        }
        proof {
            assert(all_ids.skip(count as int).len() == 0);
        }
        PlatformStats {
            users: count,
            total_available,
            total_staked,
            total_lent,
            total_farmed,
            total_borrowed,
        }
    }
}

/// Unfolds one step of [`spec_totals`] along the suffix starting at
/// `index`: the sums over the suffix are the position at `index` plus the
/// sums over the rest.
proof fn lemma_totals_step(accounts: Map<u64, Account>, ids: Seq<u64>, index: int)
    requires
        0 <= index < ids.len(),
    ensures
        ({
            let suffix = spec_totals(accounts, ids.skip(index));
            let rest = spec_totals(accounts, ids.skip(index + 1));
            let position = accounts[ids[index]].position;
            &&& suffix.0 == position.available + rest.0
            &&& suffix.1 == position.staked + rest.1
            &&& suffix.2 == position.lent + rest.2
            &&& suffix.3 == position.farmed + rest.3
            &&& suffix.4 == position.borrowed + rest.4
        }),
{
    assert(ids.skip(index).len() == ids.len() - index);
    assert(ids.skip(index)[0] == ids[index]);
    assert(ids.skip(index).drop_first() =~= ids.skip(index + 1));
}

/// One more `u64`-sized term never overflows the `u128` running sum: after
/// `index` terms of at most `u64::MAX` each, there is room for another.
proof fn lemma_sum_step_bound(index: int, count: int)
    requires
        0 <= index < count,
        count <= usize::MAX,
    ensures
        (index + 1) * (u64::MAX as int) <= u128::MAX,
        index * (u64::MAX as int) + u64::MAX == (index + 1) * (u64::MAX as int),
{
    assert(index * (u64::MAX as int) + u64::MAX == (index + 1) * (u64::MAX as int))
        by (nonlinear_arith);
    lemma_mul_inequality(index + 1, 0x1_0000_0000_0000_0000, u64::MAX as int);
    assert(0x1_0000_0000_0000_0000 * (u64::MAX as int) <= u128::MAX) by (nonlinear_arith);
    assert(usize::MAX <= 0xffff_ffff_ffff_ffff);
}

} // verus!
