//! A minimal single-process accounting ledger: per-user balances, a shared
//! treasury aggregate, and three operations over them — fee-adjusted deposit
//! and withdrawal, peer-to-peer borrowing capped at a share of the lender's
//! balance, and treasury-wide interest distribution.

pub mod arith;
pub mod errors;
pub mod laws;
pub mod treasury;
pub mod user;
