//! Typed outcomes of ledger operations.
//!
//! Every operation reports failure through [`LedgerError`]; nothing is
//! fatal. Errors raised by the external custody service during a settlement
//! are surfaced verbatim through [`SettleFailure`].

use vstd::prelude::*;

verus! {

/// The reason the external custody service rejected a transfer.
#[derive(Clone, Copy, Debug, PartialEq, Eq, Structural)]
pub enum SettleFailure {
    /// The approved spending allowance does not cover the transfer.
    InsufficientAllowance,
    /// The paying account does not hold enough funds.
    InsufficientFunds,
    /// The approval backing the transfer has expired.
    Expired,
    /// The transfer request was created too far in the past.
    TooOld,
    /// The service already executed an identical transfer.
    Duplicate,
    /// The service is temporarily unable to execute transfers.
    TemporarilyUnavailable,
    /// Any other service-side error.
    Generic,
}

/// Why a ledger operation did not take effect.
#[derive(Clone, Copy, Debug, PartialEq, Eq, Structural)]
pub enum LedgerError {
    /// The amount is zero, or too small to cover the fee it must absorb.
    InvalidAmount,
    /// The identity has no position; it must register first.
    NotRegistered,
    /// Only the admin may pause or unpause.
    Unauthorized,
    /// The ledger is paused; mutating operations are rejected.
    Paused,
    /// `available` does not cover the amount plus the transfer fee.
    InsufficientBalance,
    /// The committed principal does not cover the amount plus the fee.
    InsufficientPrincipal,
    /// The collateral base does not cover the required ratio of the loan.
    InsufficientCollateral,
    /// The pre-flight allowance check found the allowance too small.
    InsufficientAllowance,
    /// A repayment larger than the outstanding debt.
    ExceedsDebt,
    /// Emergency withdrawal while a loan is still outstanding.
    DebtOutstanding,
    /// A claim when no reward has accrued.
    NothingToClaim,
    /// A settlement report for an identity with no settlement in flight.
    NoPendingSettlement,
    /// Another operation on the same identity holds the guard across a
    /// settlement; the caller must retry once it resolves.
    Busy,
    /// The custody service rejected the transfer; the position is untouched.
    SettlementFailed(SettleFailure),
    /// The call to the custody service did not complete; the position is
    /// untouched.
    TransportFailure,
}

} // verus!
