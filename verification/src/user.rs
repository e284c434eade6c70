use vstd::prelude::*;

use crate::arith::{sat_mul, sat_mul_u32};
use crate::errors::LedgerError;
use crate::treasury::Treasury;

verus! {

/// The entry fee charged on a deposit: 200 basis points (2%) of `amount`,
/// with the intermediate product saturating at `u32::MAX` and the division
/// truncating toward zero.
pub open spec fn entry_fee_spec(amount: int) -> int {
    sat_mul_u32(amount, 200) / 10000
}

/// The exit fee charged on a withdrawal: 400 basis points (4%) of `amount`,
/// with the same saturating arithmetic policy as the entry fee.
pub open spec fn exit_fee_spec(amount: int) -> int {
    sat_mul_u32(amount, 400) / 10000
}

/// The most a borrower may draw from a lender: 10% of the lender's deposited
/// balance, truncated toward zero.
pub open spec fn borrow_limit_spec(deposited: int) -> int {
    deposited * 10 / 100
}

/// The entry fee never exceeds the amount it is charged on, so the net
/// deposit `amount - fee` is always well defined.
pub proof fn lemma_entry_fee_le_amount(amount: u32)
    ensures
        0 <= entry_fee_spec(amount as int) <= amount,
{
    if amount * 200 > u32::MAX {
        assert(amount >= 21474837) by (nonlinear_arith)
            requires
                amount * 200 > u32::MAX,
        ;
        assert(entry_fee_spec(amount as int) == u32::MAX as int / 10000);
    } else {
        assert(amount * 200 / 10000 <= amount) by (nonlinear_arith);
    }
}

/// One account: its current net balance, lifetime withdrawal counter, and
/// borrowing eligibility. Identifier uniqueness is the caller's burden.
#[derive(Debug)]
pub struct User {
    pub id: u32,
    pub name: String,
    /// Current net deposit balance, after withdrawals, borrows and interest.
    pub total_deposited: u32,
    /// Cumulative lifetime withdrawals; never decreases.
    pub total_withdrawn: u32,
    /// Set on the first deposit, never reset.
    pub has_deposited: bool,
    /// Whether others may borrow against this user's balance; overwritten on
    /// every deposit.
    pub borrowable: bool,
}

impl User {
    /// Deposit `amount` into the user's account and the treasury, and record
    /// the caller-supplied borrowing eligibility. Overflow of either balance
    /// is a contract violation, so both additions must fit beforehand.
    pub fn deposit(&mut self, amount: u32, treasury: &mut Treasury, is_borrowable: bool)
        requires
            old(self).total_deposited + amount <= u32::MAX,
            old(treasury).sum_deposited + amount <= u32::MAX,
        ensures
            final(self).total_deposited == old(self).total_deposited + amount,
            final(self).has_deposited,
            final(self).borrowable == is_borrowable,
            final(self).total_withdrawn == old(self).total_withdrawn,
            final(self).id == old(self).id,
            final(self).name == old(self).name,
            final(treasury).sum_deposited == old(treasury).sum_deposited + amount,
            final(treasury).sum_withdrawn == old(treasury).sum_withdrawn,
    {
        self.total_deposited = self.total_deposited + amount;
        self.has_deposited = true;
        self.borrowable = is_borrowable;
        treasury.sum_deposited = treasury.sum_deposited + amount;
    }

    /// Withdraw `amount` from the user's account and the treasury. Succeeds
    /// exactly when the cumulative withdrawn total stays within the deposited
    /// balance, and then returns the updated lifetime withdrawal counter; the
    /// treasury mirrors the movement. On the successful inputs, overflow of
    /// the treasury's fields is a contract violation.
    pub fn withdraw(&mut self, amount: u32, treasury: &mut Treasury) -> (r: Result<
        u32,
        LedgerError,
    >)
        requires
            old(self).total_withdrawn + amount <= old(self).total_deposited ==> {
                &&& amount <= old(treasury).sum_deposited
                &&& old(treasury).sum_withdrawn + amount <= u32::MAX
            },
        ensures
            old(self).total_withdrawn + amount <= old(self).total_deposited ==> {
                &&& r == Ok::<u32, LedgerError>(
                    (old(self).total_withdrawn + amount) as u32,
                )
                &&& final(self).total_deposited == old(self).total_deposited - amount
                &&& final(self).total_withdrawn == old(self).total_withdrawn + amount
                &&& final(treasury).sum_deposited == old(treasury).sum_deposited - amount
                &&& final(treasury).sum_withdrawn == old(treasury).sum_withdrawn + amount
            },
            old(self).total_withdrawn + amount > old(self).total_deposited ==> {
                &&& r == Err::<u32, LedgerError>(LedgerError::InsufficientBalance)
                &&& *final(self) == *old(self)
                &&& *final(treasury) == *old(treasury)
            },
            r matches Ok(_) ==> final(self).total_withdrawn <= old(self).total_deposited,
            final(self).id == old(self).id,
            final(self).name == old(self).name,
            final(self).has_deposited == old(self).has_deposited,
            final(self).borrowable == old(self).borrowable,
    {
        if amount <= self.total_deposited && self.total_withdrawn <= self.total_deposited
            - amount {
            self.total_deposited = self.total_deposited - amount;
            self.total_withdrawn = self.total_withdrawn + amount;
            treasury.sum_deposited = treasury.sum_deposited - amount;
            treasury.sum_withdrawn = treasury.sum_withdrawn + amount;
            Ok(self.total_withdrawn)
        } else {
            Err(LedgerError::InsufficientBalance)
        }
    }

    /// Deposit `amount` less the entry fee: the net amount is credited to
    /// the user and the treasury; the fee itself is burned, not recorded as
    /// revenue anywhere. The fee can never exceed the amount, and overflow of
    /// the credited balances is a contract violation, as in `deposit`.
    pub fn deposit_with_fee(&mut self, amount: u32, treasury: &mut Treasury, is_borrowable: bool)
        requires
            old(self).total_deposited + amount - entry_fee_spec(amount as int) <= u32::MAX,
            old(treasury).sum_deposited + amount - entry_fee_spec(amount as int) <= u32::MAX,
        ensures
            final(self).total_deposited == old(self).total_deposited + amount - entry_fee_spec(
                amount as int,
            ),
            final(self).has_deposited,
            final(self).borrowable == is_borrowable,
            final(self).total_withdrawn == old(self).total_withdrawn,
            final(self).id == old(self).id,
            final(self).name == old(self).name,
            final(treasury).sum_deposited == old(treasury).sum_deposited + amount
                - entry_fee_spec(amount as int),
            final(treasury).sum_withdrawn == old(treasury).sum_withdrawn,
    {
        let fee = Self::calculate_entry_fee(amount);
        proof {
            lemma_entry_fee_le_amount(amount);
        }
        let net_amount = amount - fee;
        self.deposit(net_amount, treasury, is_borrowable);
    }

    /// Withdraw `amount` plus the exit fee computed on it: the inflated total
    /// is what leaves the account, via `withdraw`. The fee is burned. If the
    /// inflated total itself overflows 32 bits, that is reported as a
    /// recoverable error and nothing changes.
    pub fn withdraw_with_fee(&mut self, amount: u32, treasury: &mut Treasury) -> (r: Result<
        u32,
        LedgerError,
    >)
        requires
            ({
                &&& amount + exit_fee_spec(amount as int) <= u32::MAX
                &&& old(self).total_withdrawn + amount + exit_fee_spec(amount as int) <= old(
                    self,
                ).total_deposited
            }) ==> {
                &&& amount + exit_fee_spec(amount as int) <= old(treasury).sum_deposited
                &&& old(treasury).sum_withdrawn + amount + exit_fee_spec(amount as int)
                    <= u32::MAX
            },
        ensures
            amount + exit_fee_spec(amount as int) > u32::MAX ==> {
                &&& r == Err::<u32, LedgerError>(LedgerError::Overflow)
                &&& *final(self) == *old(self)
                &&& *final(treasury) == *old(treasury)
            },
            ({
                &&& amount + exit_fee_spec(amount as int) <= u32::MAX
                &&& old(self).total_withdrawn + amount + exit_fee_spec(amount as int) <= old(
                    self,
                ).total_deposited
            }) ==> {
                &&& r == Ok::<u32, LedgerError>(
                    (old(self).total_withdrawn + amount + exit_fee_spec(amount as int)) as u32,
                )
                &&& final(self).total_deposited == old(self).total_deposited - amount
                    - exit_fee_spec(amount as int)
                &&& final(self).total_withdrawn == old(self).total_withdrawn + amount
                    + exit_fee_spec(amount as int)
                &&& final(treasury).sum_deposited == old(treasury).sum_deposited - amount
                    - exit_fee_spec(amount as int)
                &&& final(treasury).sum_withdrawn == old(treasury).sum_withdrawn + amount
                    + exit_fee_spec(amount as int)
            },
            ({
                &&& amount + exit_fee_spec(amount as int) <= u32::MAX
                &&& old(self).total_withdrawn + amount + exit_fee_spec(amount as int) > old(
                    self,
                ).total_deposited
            }) ==> {
                &&& r == Err::<u32, LedgerError>(LedgerError::InsufficientBalance)
                &&& *final(self) == *old(self)
                &&& *final(treasury) == *old(treasury)
            },
            r matches Ok(_) ==> final(self).total_withdrawn <= old(self).total_deposited,
            final(self).id == old(self).id,
            final(self).name == old(self).name,
            final(self).has_deposited == old(self).has_deposited,
            final(self).borrowable == old(self).borrowable,
    {
        let fee = Self::calculate_exit_fee(amount);
        let total = match amount.checked_add(fee) {
            Some(t) => t,
            None => {
                return Err(LedgerError::Overflow);
            },
        };
        self.withdraw(total, treasury)
    }

    /// Borrow `amount` from `lender`: a transfer between the two users'
    /// recorded deposits that never touches the treasury. The checks run in
    /// order: the lender must have enabled borrowing; the amount must stay
    /// within the lender's borrowing limit (10% of its deposited balance,
    /// computed through a 64-bit intermediate so the product cannot wrap);
    /// and the lender must hold the amount, which the limit already
    /// guarantees. Overflow of the borrower's balance is a recoverable error
    /// and leaves both users unchanged.
    pub fn borrow(&mut self, lender: &mut User, amount: u32) -> (r: Result<u32, LedgerError>)
        ensures
            !old(lender).borrowable ==> {
                &&& r == Err::<u32, LedgerError>(LedgerError::BorrowingDisabled)
                &&& *final(self) == *old(self)
                &&& *final(lender) == *old(lender)
            },
            old(lender).borrowable && amount > borrow_limit_spec(
                old(lender).total_deposited as int,
            ) ==> {
                &&& r == Err::<u32, LedgerError>(
                    LedgerError::LimitExceeded {
                        max: borrow_limit_spec(old(lender).total_deposited as int) as u32,
                    },
                )
                &&& *final(self) == *old(self)
                &&& *final(lender) == *old(lender)
            },
            old(lender).borrowable && amount <= borrow_limit_spec(
                old(lender).total_deposited as int,
            ) && old(self).total_deposited + amount > u32::MAX ==> {
                &&& r == Err::<u32, LedgerError>(LedgerError::Overflow)
                &&& *final(self) == *old(self)
                &&& *final(lender) == *old(lender)
            },
            old(lender).borrowable && amount <= borrow_limit_spec(
                old(lender).total_deposited as int,
            ) && old(self).total_deposited + amount <= u32::MAX ==> {
                &&& r == Ok::<u32, LedgerError>(amount)
                &&& final(lender).total_deposited == old(lender).total_deposited - amount
                &&& final(self).total_deposited == old(self).total_deposited + amount
            },
            final(self).total_deposited + final(lender).total_deposited == old(
                self,
            ).total_deposited + old(lender).total_deposited,
            final(self).total_withdrawn == old(self).total_withdrawn,
            final(self).has_deposited == old(self).has_deposited,
            final(self).borrowable == old(self).borrowable,
            final(self).id == old(self).id,
            final(self).name == old(self).name,
            final(lender).total_withdrawn == old(lender).total_withdrawn,
            final(lender).has_deposited == old(lender).has_deposited,
            final(lender).borrowable == old(lender).borrowable,
            final(lender).id == old(lender).id,
            final(lender).name == old(lender).name,
    {
        if !lender.borrowable {
            return Err(LedgerError::BorrowingDisabled);
        }
        let wide_limit: u64 = (lender.total_deposited as u64) * 10 / 100;
        proof {
            assert(lender.total_deposited * 10 / 100 <= lender.total_deposited)
                by (nonlinear_arith);
        }
        let max_borrowable: u32 = wide_limit as u32;
        if amount > max_borrowable {
            return Err(LedgerError::LimitExceeded { max: max_borrowable });
        }
        if lender.total_deposited < amount {
            return Err(LedgerError::InsufficientBalance);
        }
        let credited = match self.total_deposited.checked_add(amount) {
            Some(v) => v,
            None => {
                return Err(LedgerError::Overflow);
            },
        };
        lender.total_deposited = lender.total_deposited - amount;
        self.total_deposited = credited;
        Ok(amount)
    }

    /// The entry fee (2%) for a deposit of `amount`.
    pub fn calculate_entry_fee(amount: u32) -> (fee: u32)
        ensures
            fee == entry_fee_spec(amount as int),
    {
        sat_mul(amount, 200) / 10000
    }

    /// The exit fee (4%) for a withdrawal of `amount`.
    pub fn calculate_exit_fee(amount: u32) -> (fee: u32)
        ensures
            fee == exit_fee_spec(amount as int),
    {
        sat_mul(amount, 400) / 10000
    }
}

} // verus!
