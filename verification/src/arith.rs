use vstd::prelude::*;

verus! {

/// The product of `a` and `b`, capped at `u32::MAX`: the value a saturating
/// 32-bit multiplication yields.
pub open spec fn sat_mul_u32(a: int, b: int) -> int {
    if a * b > u32::MAX as int {
        u32::MAX as int
    } else {
        a * b
    }
}

/// Saturating 32-bit multiplication.
pub fn sat_mul(a: u32, b: u32) -> (r: u32)
    ensures
        r == sat_mul_u32(a as int, b as int),
{
    match a.checked_mul(b) {
        Some(p) => p,
        None => u32::MAX,
    }
}

} // verus!
