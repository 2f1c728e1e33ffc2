//! The mathematical model of the two operations: interval remapping and
//! clamped, saturating stepping, stated over unbounded integers.

use vstd::prelude::*;

verus! {

/// The value of a linear remap from the source interval `[s0, s1]` to the
/// target interval `[t0, t1]` at the probe value `v`.
///
/// A degenerate source interval (`s0 == s1`) maps everything to `t0`; this
/// sidesteps the division by zero and is a deliberate special case, not an
/// error. Otherwise the offset of `v` from `s0` is rescaled by the ratio of
/// the interval widths with truncating division, and laid off from `t0`.
pub open spec fn map_spec(v: int, s0: int, s1: int, t0: int, t1: int) -> int {
    if s0 == s1 {
        t0
    } else {
        t0 + ((v - s0) * (t1 - t0)) / (s1 - s0)
    }
}

/// Whether `v` lies in the closed interval `[lo, hi]` as supplied.
pub open spec fn in_interval(v: int, lo: int, hi: int) -> bool {
    lo <= v && v <= hi
}

/// `min(max(x, lo), hi)`: clamp `x` into `[lo, hi]`, the upper bound
/// winning when the bounds are reversed.
pub open spec fn clamp_spec(x: int, lo: int, hi: int) -> int {
    let raised = if x < lo {
        lo
    } else {
        x
    };
    if raised > hi {
        hi
    } else {
        raised
    }
}

/// `v + d`, saturating at `max` instead of exceeding it.
pub open spec fn sat_add_spec(v: int, d: int, max: int) -> int {
    if v + d > max {
        max
    } else {
        v + d
    }
}

/// `v - d`, saturating at `min` instead of falling below it.
pub open spec fn sat_sub_spec(v: int, d: int, min: int) -> int {
    if v - d < min {
        min
    } else {
        v - d
    }
}

} // verus!
