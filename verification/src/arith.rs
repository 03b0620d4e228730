//! Saturating arithmetic on 64-bit counts.

use vstd::prelude::*;

verus! {

/// The 64-bit count nearest to `v`: `v` itself where it fits, the largest
/// count above and zero below.
pub open spec fn saturate(v: int) -> u64 {
    if v > u64::MAX {
        u64::MAX
    } else if v < 0 {
        0
    } else {
        v as u64
    }
}

/// The product of two counts, or the largest 64-bit value where it does not fit.
pub fn saturating_mul(x: u64, y: u64) -> (r: u64)
    ensures
        r == saturate(x * y),
{
    match x.checked_mul(y) {
        Some(product) => product,
        None => u64::MAX,
    }
}

} // verus!
