//! Fixed configuration of the ledger: annual rates, the external transfer
//! fee, the collateral ratio, and the length of a year.
//!
//! Rates are integer numbers of hundredths per year (a rate of `10` means
//! 10% annually), so that accrual is exact integer arithmetic and two
//! evaluations of the same inputs can never disagree.

use vstd::prelude::*;

verus! {

/// Seconds in one (non-leap) year; the base period of every annual rate.
pub const SECONDS_PER_YEAR: u64 = 31_536_000;

/// Rates are expressed in hundredths: `rate / RATE_DENOM` is the annual rate.
pub const RATE_DENOM: u64 = 100;

/// Annual staking reward rate, in hundredths (10%).
pub const STAKE_RATE: u64 = 10;

/// Annual lending reward rate, in hundredths (5%).
pub const LEND_RATE: u64 = 5;

/// Annual yield-farming reward rate, in hundredths (15%).
pub const FARM_RATE: u64 = 15;

/// Annual borrowing interest rate, in hundredths (12%).
pub const BORROW_RATE: u64 = 12;

/// Fixed fee the external custody service deducts from every transfer.
pub const TRANSFER_FEE: u64 = 10;

/// Required collateral per borrowed unit: the collateral base must be at
/// least `COLLATERAL_RATIO` times the requested amount.
pub const COLLATERAL_RATIO: u64 = 2;

} // verus!
