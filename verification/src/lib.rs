//! A collateral-backed position ledger: per-identity balances, committed
//! principals (staking, lending, yield farming), borrowing against collateral,
//! simple-interest accrual re-based at checkpoints, and a two-phase settlement
//! protocol that keeps each position consistent around asynchronous transfers
//! to an external token-custody service.

pub mod accrual;
pub mod errors;
pub mod params;
pub mod policy;
pub mod position;
pub mod service;
pub mod settlement;
pub mod stats;
pub mod store;
