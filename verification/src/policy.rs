//! Borrow eligibility and outstanding debt.

use vstd::prelude::*;

use crate::accrual::accrue;
use crate::accrual::clamp_u64;
use crate::accrual::spec_accrue;
use crate::params::BORROW_RATE;
use crate::params::COLLATERAL_RATIO;
use crate::position::Position;

verus! {

/// The borrowed principal plus the interest accrued on it since its
/// checkpoint, as an unbounded integer.
pub open spec fn spec_outstanding_debt(position: Position, now: u64) -> nat {
    (position.borrowed as nat) + spec_accrue(
        position.borrowed,
        position.borrow_checkpoint,
        BORROW_RATE,
        now,
    )
}

/// Whether the collateral base covers `COLLATERAL_RATIO` times the
/// requested loan. The boundary is inclusive: a base of exactly
/// `COLLATERAL_RATIO * amount` qualifies.
pub open spec fn spec_can_borrow(position: Position, amount: u64) -> bool {
    position.spec_collateral_base() >= COLLATERAL_RATIO * amount
}

/// A position's health: unbounded when nothing is borrowed, otherwise the
/// exact ratio `collateral / debt` as a numerator/denominator pair.
#[derive(Clone, Copy, Debug, PartialEq, Eq, Structural)]
pub enum HealthFactor {
    /// Nothing is borrowed; no ratio exists.
    NoDebt,
    /// The collateral base over the outstanding debt. Values at or below
    /// one denote under-collateralization; this is a reporting-only metric.
    Ratio { collateral: u128, debt: u64 },
}

/// Whether `position` may borrow `amount` more: the collateral base
/// (`available + staked + lent + farmed`) must be at least
/// `COLLATERAL_RATIO` times `amount`.
pub fn can_borrow(position: &Position, amount: u64) -> (eligible: bool)
    ensures
        eligible == spec_can_borrow(*position, amount),
{
    proof {
        assert((COLLATERAL_RATIO as u128) * (amount as u128) == 2 * (amount as int))
            by (nonlinear_arith);
    }
    position.collateral_base() >= (COLLATERAL_RATIO as u128) * (amount as u128)
}

/// The borrowed principal plus interest accrued since the borrow
/// checkpoint, clamped to `u64::MAX`.
pub fn outstanding_debt(position: &Position, now: u64) -> (debt: u64)
    ensures
        debt == clamp_u64(spec_outstanding_debt(*position, now) as int),
{
    let interest = accrue(position.borrowed, position.borrow_checkpoint, BORROW_RATE, now);
    if position.borrowed > u64::MAX - interest {
        u64::MAX
    } else {
        position.borrowed + interest
    }
}

/// The position's health factor at `now`: `NoDebt` when nothing is
/// borrowed, otherwise the ratio of the exact collateral base to the
/// outstanding debt (the debt clamped to `u64::MAX`).
pub fn health_factor(position: &Position, now: u64) -> (health: HealthFactor)
    ensures
        health == (if position.borrowed == 0 {
            HealthFactor::NoDebt
        } else {
            HealthFactor::Ratio {
                collateral: position.spec_collateral_base() as u128,
                debt: clamp_u64(spec_outstanding_debt(*position, now) as int),
            }
        }),
{
    if position.borrowed == 0 {
        HealthFactor::NoDebt
    } else {
        HealthFactor::Ratio {
            collateral: position.collateral_base(),
            debt: outstanding_debt(position, now),
        }
    }
}

} // verus!
