//! The mapping operation: a checked variant that validates domain
//! membership and target ordering, and an unchecked variant with no
//! validation, both stated against [`crate::model::map_spec`].

use crate::model::in_interval;
use crate::model::map_spec;
use crate::repr::IntRepr;
use vstd::prelude::*;

verus! {

/// Map a value from a source interval to a target interval.
///
/// `map_range` yields `None` exactly when the value lies outside the
/// source interval as supplied, or the target interval descends; otherwise
/// it yields the remapped value, which lies within the target interval and
/// hits its endpoints exactly.
///
/// `map_range_unchecked` performs the same arithmetic with no checks. Its
/// result is pinned down only for an in-domain value with an ascending
/// target interval; on other inputs it wraps silently (it never panics),
/// and the contract promises nothing of the value that comes back.
pub trait MapRange<Out: IntRepr>: IntRepr {
    /// Map `self` from `range` into `o_range`, checking that `self` lies
    /// within `range` and that `o_range` ascends.
    fn map_range(self, range: (Self, Self), o_range: (Out, Out)) -> (r: Option<Out>)
        ensures
            (r is Some) <==> (in_interval(self.as_int(), range.0.as_int(), range.1.as_int())
                && o_range.0.as_int() <= o_range.1.as_int()),
            r matches Some(out) ==> out.as_int() == map_spec(
                self.as_int(),
                range.0.as_int(),
                range.1.as_int(),
                o_range.0.as_int(),
                o_range.1.as_int(),
            ),
            r matches Some(out) ==> in_interval(
                out.as_int(),
                o_range.0.as_int(),
                o_range.1.as_int(),
            ),
    ;

    /// Map `self` from `range` into `o_range` with no domain check.
    fn map_range_unchecked(self, range: (Self, Self), o_range: (Out, Out)) -> (r: Out)
        ensures
            (in_interval(self.as_int(), range.0.as_int(), range.1.as_int())
                && o_range.0.as_int() <= o_range.1.as_int()) ==> (r.as_int() == map_spec(
                self.as_int(),
                range.0.as_int(),
                range.1.as_int(),
                o_range.0.as_int(),
                o_range.1.as_int(),
            ) && in_interval(r.as_int(), o_range.0.as_int(), o_range.1.as_int())),
    ;
}

} // verus!
