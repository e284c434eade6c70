use vstd::prelude::*;

verus! {

/// The recoverable failures of the ledger operations. Arithmetic overflow on
/// the primary balance fields of a plain deposit or withdrawal is a contract
/// violation and is ruled out by those functions' preconditions instead.
#[derive(Clone, Copy, Debug, PartialEq, Eq, Structural)]
pub enum LedgerError {
    /// A withdrawal would push the cumulative withdrawn total past the
    /// deposited balance.
    InsufficientBalance,
    /// The lender has not enabled borrowing.
    BorrowingDisabled,
    /// A borrow request exceeds the lender's borrowing limit; `max` is the
    /// largest amount that could have been borrowed.
    LimitExceeded { max: u32 },
    /// Interest cannot be computed before the treasury has seen both a
    /// deposit and a withdrawal.
    InvalidTreasuryState,
    /// A balance update in a borrow, fee, or interest path would overflow.
    Overflow,
}

} // verus!
