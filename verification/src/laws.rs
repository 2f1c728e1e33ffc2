//! The general properties of the model, each proved once over unbounded
//! integers and therefore holding for every supported type pair.

use crate::model::clamp_spec;
use crate::model::in_interval;
use crate::model::map_spec;
use vstd::arithmetic::div_mod::lemma_div_is_ordered;
use vstd::arithmetic::div_mod::lemma_div_multiples_vanish;
use vstd::arithmetic::div_mod::lemma_fundamental_div_mod;
use vstd::arithmetic::div_mod::lemma_mod_bound;
use vstd::arithmetic::mul::lemma_mul_is_commutative;
use vstd::arithmetic::mul::lemma_mul_is_distributive_add_other_way;
use vstd::arithmetic::mul::lemma_mul_inequality;
use vstd::prelude::*;

verus! {

/// Endpoint exactness: a non-degenerate ascending source interval maps its
/// low endpoint to the target's low endpoint and its high endpoint to the
/// target's high endpoint, exactly.
pub proof fn lemma_endpoints_exact(s0: int, s1: int, t0: int, t1: int)
    requires
        s0 < s1,
        t0 <= t1,
    ensures
        map_spec(s0, s0, s1, t0, t1) == t0,
        map_spec(s1, s0, s1, t0, t1) == t1,
{
    lemma_div_multiples_vanish(0, s1 - s0);
    lemma_div_multiples_vanish(t1 - t0, s1 - s0);
}

/// Degenerate source: an interval of a single point maps every value to
/// the target's low endpoint, whatever the target's high endpoint is.
pub proof fn lemma_degenerate_source(v: int, k: int, t0: int, t1: int)
    ensures
        map_spec(v, k, k, t0, t1) == t0,
{
}

/// Degenerate target: every in-domain value lands on the single point of a
/// degenerate target interval.
pub proof fn lemma_degenerate_target(v: int, s0: int, s1: int, k: int)
    requires
        s0 <= v <= s1,
    ensures
        map_spec(v, s0, s1, k, k) == k,
{
    if s0 != s1 {
        lemma_div_multiples_vanish(0, s1 - s0);
    }
}

/// Monotonicity: with ascending source and target intervals, a larger
/// in-domain value never maps below a smaller one.
pub proof fn lemma_map_monotonic(v1: int, v2: int, s0: int, s1: int, t0: int, t1: int)
    requires
        s0 <= v1 <= v2 <= s1,
        t0 <= t1,
    ensures
        map_spec(v1, s0, s1, t0, t1) <= map_spec(v2, s0, s1, t0, t1),
{
    if s0 != s1 {
        lemma_mul_inequality(v1 - s0, v2 - s0, t1 - t0);
        lemma_div_is_ordered((v1 - s0) * (t1 - t0), (v2 - s0) * (t1 - t0), s1 - s0);
    }
}

/// Truncation: for a non-degenerate ascending source interval and an
/// ascending target interval, the mapped offset is the exact ratio rounded
/// down, so the error of the result, measured in target units, is less
/// than one.
pub proof fn lemma_truncation_bound(v: int, s0: int, s1: int, t0: int, t1: int)
    requires
        s0 <= v <= s1,
        s0 < s1,
        t0 <= t1,
    ensures
        (map_spec(v, s0, s1, t0, t1) - t0) * (s1 - s0) <= (v - s0) * (t1 - t0),
        (v - s0) * (t1 - t0) < (map_spec(v, s0, s1, t0, t1) - t0 + 1) * (s1 - s0),
{
    let x = (v - s0) * (t1 - t0);
    let ds = s1 - s0;
    let q = x / ds;
    lemma_fundamental_div_mod(x, ds);
    lemma_mod_bound(x, ds);
    lemma_mul_is_commutative(ds, q);
    lemma_mul_is_distributive_add_other_way(ds, q, 1);
}

/// Clamping lands in the bounds: whatever the stepped value, clamping it
/// into an ascending bound pair yields a value within that pair.
pub proof fn lemma_clamp_in_bounds(x: int, lo: int, hi: int)
    requires
        lo <= hi,
    ensures
        in_interval(clamp_spec(x, lo, hi), lo, hi),
{
}

} // verus!
