use vstd::prelude::*;

use crate::arith::{sat_mul, sat_mul_u32};
use crate::errors::LedgerError;
use crate::user::User;

verus! {

/// The interest owed to a user:
/// `(sum_deposited * user_deposited) / sum_withdrawn`, with the product
/// saturating at `u32::MAX` and the division truncating toward zero. Only
/// meaningful when `sum_withdrawn > 0`.
pub open spec fn interest_spec(sum_deposited: int, user_deposited: int, sum_withdrawn: int) -> int {
    sat_mul_u32(sum_deposited, user_deposited) / sum_withdrawn
}

/// Whether interest can be computed at all: the treasury must have seen both
/// a deposit and a withdrawal.
pub open spec fn treasury_valid_for_interest(t: Treasury) -> bool {
    t.sum_deposited > 0 && t.sum_withdrawn > 0
}

/// The system-wide aggregate ledger: the sum of all users' net deposits and
/// the cumulative lifetime withdrawals across all users.
#[derive(Debug)]
pub struct Treasury {
    pub sum_deposited: u32,
    pub sum_withdrawn: u32,
}

impl Treasury {
    /// The interest a user's balance earns from the treasury, or the
    /// invalid-state error whenever either aggregate is still zero — in
    /// particular, always before the first withdrawal.
    pub fn calculate_interest_rate(treasury: &Treasury, user: &User) -> (r: Result<
        u32,
        LedgerError,
    >)
        ensures
            treasury_valid_for_interest(*treasury) ==> {
                &&& r == Ok::<u32, LedgerError>(
                    interest_spec(
                        treasury.sum_deposited as int,
                        user.total_deposited as int,
                        treasury.sum_withdrawn as int,
                    ) as u32,
                )
                &&& 0 <= interest_spec(
                    treasury.sum_deposited as int,
                    user.total_deposited as int,
                    treasury.sum_withdrawn as int,
                ) <= u32::MAX
            },
            !treasury_valid_for_interest(*treasury) ==> r == Err::<u32, LedgerError>(
                LedgerError::InvalidTreasuryState,
            ),
    {
        if treasury.sum_deposited > 0 && treasury.sum_withdrawn > 0 {
            let numerator = sat_mul(treasury.sum_deposited, user.total_deposited);
            Ok(numerator / treasury.sum_withdrawn)
        } else {
            Err(LedgerError::InvalidTreasuryState)
        }
    }

    /// Compute the user's interest and credit it to both the user's balance
    /// and the treasury's deposited aggregate, returning the amount applied.
    /// An invalid treasury state or an overflow of either credited field is a
    /// recoverable error that leaves both entities unchanged.
    pub fn apply_interest(&mut self, user: &mut User) -> (r: Result<u32, LedgerError>)
        ensures
            !treasury_valid_for_interest(*old(self)) ==> {
                &&& r == Err::<u32, LedgerError>(LedgerError::InvalidTreasuryState)
                &&& *final(self) == *old(self)
                &&& *final(user) == *old(user)
            },
            treasury_valid_for_interest(*old(self)) && {
                ||| old(user).total_deposited + interest_spec(
                    old(self).sum_deposited as int,
                    old(user).total_deposited as int,
                    old(self).sum_withdrawn as int,
                ) > u32::MAX
                ||| old(self).sum_deposited + interest_spec(
                    old(self).sum_deposited as int,
                    old(user).total_deposited as int,
                    old(self).sum_withdrawn as int,
                ) > u32::MAX
            } ==> {
                &&& r == Err::<u32, LedgerError>(LedgerError::Overflow)
                &&& *final(self) == *old(self)
                &&& *final(user) == *old(user)
            },
            treasury_valid_for_interest(*old(self)) && old(user).total_deposited + interest_spec(
                old(self).sum_deposited as int,
                old(user).total_deposited as int,
                old(self).sum_withdrawn as int,
            ) <= u32::MAX && old(self).sum_deposited + interest_spec(
                old(self).sum_deposited as int,
                old(user).total_deposited as int,
                old(self).sum_withdrawn as int,
            ) <= u32::MAX ==> {
                &&& r == Ok::<u32, LedgerError>(
                    interest_spec(
                        old(self).sum_deposited as int,
                        old(user).total_deposited as int,
                        old(self).sum_withdrawn as int,
                    ) as u32,
                )
                &&& final(user).total_deposited == old(user).total_deposited + interest_spec(
                    old(self).sum_deposited as int,
                    old(user).total_deposited as int,
                    old(self).sum_withdrawn as int,
                )
                &&& final(self).sum_deposited == old(self).sum_deposited + interest_spec(
                    old(self).sum_deposited as int,
                    old(user).total_deposited as int,
                    old(self).sum_withdrawn as int,
                )
            },
            final(self).sum_withdrawn == old(self).sum_withdrawn,
            final(user).total_withdrawn == old(user).total_withdrawn,
            final(user).has_deposited == old(user).has_deposited,
            final(user).borrowable == old(user).borrowable,
            final(user).id == old(user).id,
            final(user).name == old(user).name,
    {
        let interest = match Self::calculate_interest_rate(self, user) {
            Ok(i) => i,
            Err(e) => {
                return Err(e);
            },
        };
        let new_user_total = match user.total_deposited.checked_add(interest) {
            Some(v) => v,
            None => {
                return Err(LedgerError::Overflow);
            },
        };
        let new_sum = match self.sum_deposited.checked_add(interest) {
            Some(v) => v,
            None => {
                return Err(LedgerError::Overflow);
            },
        };
        user.total_deposited = new_user_total;
        self.sum_deposited = new_sum;
        Ok(interest)
    }
}

} // verus!
