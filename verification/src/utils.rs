//! Small numeric helpers shared across the crate.

use vstd::prelude::*;

verus! {

/// The clamp of `v` into `[lo, hi]`, the lower bound winning on an
/// inverted range.
pub open spec fn spec_clamp(v: int, lo: int, hi: int) -> int {
    if v < lo {
        lo
    } else if v > hi {
        hi
    } else {
        v
    }
}

/// Clamps `val` into `[min, max]`.
pub fn clamp(val: i32, min: i32, max: i32) -> (r: i32)
    ensures
        r as int == spec_clamp(val as int, min as int, max as int),
{
    if val < min {
        min
    } else if val > max {
        max
    } else {
        val
    }
}

/// Clamps both coordinates of a point into the box `[min, max]`.
pub fn point_clamp(val: &mut (i32, i32), min: (i32, i32), max: (i32, i32))
    ensures
        final(val).0 as int == spec_clamp(old(val).0 as int, min.0 as int, max.0 as int),
        final(val).1 as int == spec_clamp(old(val).1 as int, min.1 as int, max.1 as int),
{
    val.0 = clamp(val.0, min.0, max.0);
    val.1 = clamp(val.1, min.1, max.1);
}

} // verus!
