//! Per-identity position records.
//!
//! A [`Position`] holds the balance the ledger custodies for one identity,
//! the principal committed to each reward-bearing activity, the borrowed
//! principal, and one accrual checkpoint per principal. A checkpoint is
//! present exactly when its principal is non-zero.

use vstd::prelude::*;

use crate::params::FARM_RATE;
use crate::params::LEND_RATE;
use crate::params::STAKE_RATE;

verus! {

/// A reward-bearing activity a position can commit principal to.
#[derive(Clone, Copy, Debug, PartialEq, Eq, Structural)]
pub enum Activity {
    Stake,
    Lend,
    Farm,
}

/// The annual reward rate of an activity, in hundredths.
pub open spec fn spec_rate_of(activity: Activity) -> u64 {
    match activity {
        Activity::Stake => STAKE_RATE,
        Activity::Lend => LEND_RATE,
        Activity::Farm => FARM_RATE,
    }
}

/// The annual reward rate of an activity, in hundredths.
pub fn rate_of(activity: Activity) -> (rate: u64)
    ensures
        rate == spec_rate_of(activity),
{
    match activity {
        Activity::Stake => STAKE_RATE,
        Activity::Lend => LEND_RATE,
        Activity::Farm => FARM_RATE,
    }
}

/// One identity's record: custodied balance, committed principals, borrowed
/// principal, and the accrual checkpoint of each principal (in seconds).
#[derive(Clone, Copy, Debug, PartialEq, Eq, Structural)]
pub struct Position {
    /// The account key this position belongs to.
    pub identity: u64,
    /// Balance held by the ledger on the identity's behalf.
    pub available: u64,
    /// Principal currently staked.
    pub staked: u64,
    /// Principal currently lent.
    pub lent: u64,
    /// Principal currently yield-farming.
    pub farmed: u64,
    /// Principal currently borrowed.
    pub borrowed: u64,
    /// When reward last started accruing on `staked`.
    pub stake_checkpoint: Option<u64>,
    /// When reward last started accruing on `lent`.
    pub lend_checkpoint: Option<u64>,
    /// When reward last started accruing on `farmed`.
    pub farm_checkpoint: Option<u64>,
    /// When interest last started accruing on `borrowed`.
    pub borrow_checkpoint: Option<u64>,
}

impl Position {
    /// Each checkpoint is present exactly when its principal is non-zero.
    pub open spec fn wf(self) -> bool {
        &&& self.stake_checkpoint is Some <==> self.staked != 0
        &&& self.lend_checkpoint is Some <==> self.lent != 0
        &&& self.farm_checkpoint is Some <==> self.farmed != 0
        &&& self.borrow_checkpoint is Some <==> self.borrowed != 0
    }

    /// Everything that counts toward borrowing capacity, as an unbounded
    /// integer.
    pub open spec fn spec_collateral_base(self) -> int {
        self.available + self.staked + self.lent + self.farmed
    }

    /// The principal committed to `activity`.
    pub open spec fn spec_principal_of(self, activity: Activity) -> u64 {
        match activity {
            Activity::Stake => self.staked,
            Activity::Lend => self.lent,
            Activity::Farm => self.farmed,
        }
    }

    /// The checkpoint of `activity`'s principal.
    pub open spec fn spec_checkpoint_of(self, activity: Activity) -> Option<u64> {
        match activity {
            Activity::Stake => self.stake_checkpoint,
            Activity::Lend => self.lend_checkpoint,
            Activity::Farm => self.farm_checkpoint,
        }
    }

    /// `self` with `activity`'s principal and checkpoint replaced.
    pub open spec fn spec_with_activity(
        self,
        activity: Activity,
        principal: u64,
        checkpoint: Option<u64>,
    ) -> Position {
        match activity {
            Activity::Stake => Position { staked: principal, stake_checkpoint: checkpoint, ..self },
            Activity::Lend => Position { lent: principal, lend_checkpoint: checkpoint, ..self },
            Activity::Farm => Position { farmed: principal, farm_checkpoint: checkpoint, ..self },
        }
    }

    /// A freshly registered position: everything zero, no checkpoints.
    pub fn zeroed(identity: u64) -> (position: Position)
        ensures
            position == (Position {
                identity,
                available: 0,
                staked: 0,
                lent: 0,
                farmed: 0,
                borrowed: 0,
                stake_checkpoint: None,
                lend_checkpoint: None,
                farm_checkpoint: None,
                borrow_checkpoint: None,
            }),
            position.wf(),
    {
        Position {
            identity,
            available: 0,
            staked: 0,
            lent: 0,
            farmed: 0,
            borrowed: 0,
            stake_checkpoint: None,
            lend_checkpoint: None,
            farm_checkpoint: None,
            borrow_checkpoint: None,
        }
    }

    /// Everything that counts toward borrowing capacity:
    /// `available + staked + lent + farmed`.
    pub fn collateral_base(&self) -> (base: u128)
        ensures
            base == self.spec_collateral_base(),
    {
        (self.available as u128) + (self.staked as u128) + (self.lent as u128) + (
        self.farmed as u128)
    }

    /// The principal committed to `activity`.
    pub fn principal_of(&self, activity: Activity) -> (principal: u64)
        ensures
            principal == self.spec_principal_of(activity),
    {
        match activity {
            Activity::Stake => self.staked,
            Activity::Lend => self.lent,
            Activity::Farm => self.farmed,
        }
    }

    /// The checkpoint of `activity`'s principal.
    pub fn checkpoint_of(&self, activity: Activity) -> (checkpoint: Option<u64>)
        ensures
            checkpoint == self.spec_checkpoint_of(activity),
    {
        match activity {
            Activity::Stake => self.stake_checkpoint,
            Activity::Lend => self.lend_checkpoint,
            Activity::Farm => self.farm_checkpoint,
        }
    }

    /// `self` with `activity`'s principal and checkpoint replaced.
    pub fn with_activity(
        self,
        activity: Activity,
        principal: u64,
        checkpoint: Option<u64>,
    ) -> (position: Position)
        ensures
            position == self.spec_with_activity(activity, principal, checkpoint),
    {
        match activity {
            Activity::Stake => Position { staked: principal, stake_checkpoint: checkpoint, ..self },
            Activity::Lend => Position { lent: principal, lend_checkpoint: checkpoint, ..self },
            Activity::Farm => Position { farmed: principal, farm_checkpoint: checkpoint, ..self },
        }
    }
}

} // verus!
