use vstd::prelude::*;

use crate::user::{entry_fee_spec, exit_fee_spec};

verus! {

/// Wherever the scaled product stays within 32 bits, the entry fee is exactly
/// `floor(amount * 200 / 10000)`; saturation only matters beyond that range.
pub proof fn lemma_entry_fee_exact(amount: u32)
    requires
        amount * 200 <= u32::MAX,
    ensures
        entry_fee_spec(amount as int) == amount * 200 / 10000,
{
}

/// Wherever the scaled product stays within 32 bits, the exit fee is exactly
/// `floor(amount * 400 / 10000)`.
pub proof fn lemma_exit_fee_exact(amount: u32)
    requires
        amount * 400 <= u32::MAX,
    ensures
        exit_fee_spec(amount as int) == amount * 400 / 10000,
{
}

} // verus!
