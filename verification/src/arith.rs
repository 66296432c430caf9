//! Saturating arithmetic used by the economy: counters and the currency
//! balance cap at `u32::MAX` instead of wrapping.

use vstd::prelude::*;

verus! {

/// Product of `a` and `b`, capped at `u32::MAX`.
pub open spec fn sat_mul(a: u32, b: u32) -> u32 {
    if a * b > u32::MAX {
        u32::MAX
    } else {
        (a * b) as u32
    }
}

/// Saturating multiplication on `u32`.
pub fn saturating_mul(a: u32, b: u32) -> (r: u32)
    ensures
        r == sat_mul(a, b),
{
    match a.checked_mul(b) {
        Some(v) => v,
        None => u32::MAX,
    }
}

} // verus!
