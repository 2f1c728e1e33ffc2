//! Widened interval arithmetic: differences of interval endpoints taken
//! into a 128-bit calculation type, and the placement of a rescaled offset
//! back into a narrow target type with wraparound.
//!
//! Every factor entering the intermediate product is the difference of two
//! values of a type at most 64 bits wide, so the product always fits the
//! calculation type; the proofs below discharge that once for all callers.

use vstd::arithmetic::div_mod::lemma_div_is_ordered;
use vstd::arithmetic::div_mod::lemma_div_multiples_vanish;
use vstd::arithmetic::div_mod::lemma_div_pos_is_pos;
use vstd::arithmetic::div_mod::lemma_small_mod;
use vstd::arithmetic::mul::lemma_mul_inequality;
use vstd::arithmetic::mul::lemma_mul_nonnegative;
use vstd::arithmetic::mul::lemma_mul_upper_bound;
use vstd::prelude::*;

verus! {

/// The product of two differences of values at most 64 bits wide fits the
/// 128-bit calculation type.
pub(crate) proof fn lemma_prod_fits(d: int, dt: int)
    requires
        0 <= d <= 0xffff_ffff_ffff_ffff,
        0 <= dt <= 0xffff_ffff_ffff_ffff,
    ensures
        d * dt <= 0xffff_ffff_ffff_ffff_ffff_ffff_ffff_ffff,
{
    lemma_mul_upper_bound(d, 0xffff_ffff_ffff_ffff, dt, 0xffff_ffff_ffff_ffff);
}

/// Rescaling an offset `d` that lies within the source width `ds` by the
/// ratio `dt / ds` with truncating division keeps it within the target
/// width `dt`.
pub proof fn lemma_scale_bounded(d: int, ds: int, dt: int)
    requires
        0 <= d <= ds,
        1 <= ds,
        0 <= dt,
    ensures
        0 <= (d * dt) / ds <= dt,
{
    lemma_mul_nonnegative(d, dt);
    lemma_div_pos_is_pos(d * dt, ds);
    lemma_mul_inequality(d, ds, dt);
    lemma_div_is_ordered(d * dt, ds * dt, ds);
    lemma_div_multiples_vanish(dt, ds);
}

// -------------------------------------------------------------
// Endpoint differences, widened into the calculation type.
//
// For unsigned endpoints the difference is taken with wraparound, as the
// narrow type would compute it; it is exact whenever `b <= a`. For signed
// endpoints the unsigned magnitude of the difference is taken, which is
// exact unconditionally.
// -------------------------------------------------------------

/// `a - b` with wraparound at the width of `u8`, widened.
pub(crate) fn wdiff_u8(a: u8, b: u8) -> (r: u128)
    ensures
        r <= 0xff,
        a != b ==> 1 <= r,
        b <= a ==> r == a - b,
{
    if a >= b {
        (a - b) as u128
    } else {
        0xffu128 - ((b - a) as u128) + 1
    }
}

/// `a - b` with wraparound at the width of `u16`, widened.
pub(crate) fn wdiff_u16(a: u16, b: u16) -> (r: u128)
    ensures
        r <= 0xffff,
        a != b ==> 1 <= r,
        b <= a ==> r == a - b,
{
    if a >= b {
        (a - b) as u128
    } else {
        0xffffu128 - ((b - a) as u128) + 1
    }
}

/// `a - b` with wraparound at the width of `u32`, widened.
pub(crate) fn wdiff_u32(a: u32, b: u32) -> (r: u128)
    ensures
        r <= 0xffff_ffff,
        a != b ==> 1 <= r,
        b <= a ==> r == a - b,
{
    if a >= b {
        (a - b) as u128
    } else {
        0xffff_ffffu128 - ((b - a) as u128) + 1
    }
}

/// `a - b` with wraparound at the width of `u64`, widened.
pub(crate) fn wdiff_u64(a: u64, b: u64) -> (r: u128)
    ensures
        r <= 0xffff_ffff_ffff_ffff,
        a != b ==> 1 <= r,
        b <= a ==> r == a - b,
{
    if a >= b {
        (a - b) as u128
    } else {
        0xffff_ffff_ffff_ffffu128 - ((b - a) as u128) + 1
    }
}

/// `a - b` with wraparound at the width of `usize`, widened.
pub(crate) fn wdiff_usize(a: usize, b: usize) -> (r: u128)
    ensures
        r <= 0xffff_ffff_ffff_ffff,
        a != b ==> 1 <= r,
        b <= a ==> r == a - b,
{
    if a >= b {
        (a - b) as u128
    } else {
        (usize::MAX as u128) - ((b - a) as u128) + 1
    }
}

/// The unsigned magnitude of `a - b`, widened.
pub(crate) fn adiff_i8(a: i8, b: i8) -> (r: u128)
    ensures
        r <= 0xff,
        a != b ==> 1 <= r,
        b <= a ==> r == a - b,
        a < b ==> r == b - a,
{
    let wa: i128 = a as i128;
    let wb: i128 = b as i128;
    if wa >= wb {
        (wa - wb) as u128
    } else {
        (wb - wa) as u128
    }
}

/// The unsigned magnitude of `a - b`, widened.
pub(crate) fn adiff_i16(a: i16, b: i16) -> (r: u128)
    ensures
        r <= 0xffff,
        a != b ==> 1 <= r,
        b <= a ==> r == a - b,
        a < b ==> r == b - a,
{
    let wa: i128 = a as i128;
    let wb: i128 = b as i128;
    if wa >= wb {
        (wa - wb) as u128
    } else {
        (wb - wa) as u128
    }
}

/// The unsigned magnitude of `a - b`, widened.
pub(crate) fn adiff_i32(a: i32, b: i32) -> (r: u128)
    ensures
        r <= 0xffff_ffff,
        a != b ==> 1 <= r,
        b <= a ==> r == a - b,
        a < b ==> r == b - a,
{
    let wa: i128 = a as i128;
    let wb: i128 = b as i128;
    if wa >= wb {
        (wa - wb) as u128
    } else {
        (wb - wa) as u128
    }
}

/// The unsigned magnitude of `a - b`, widened.
pub(crate) fn adiff_i64(a: i64, b: i64) -> (r: u128)
    ensures
        r <= 0xffff_ffff_ffff_ffff,
        a != b ==> 1 <= r,
        b <= a ==> r == a - b,
        a < b ==> r == b - a,
{
    let wa: i128 = a as i128;
    let wb: i128 = b as i128;
    if wa >= wb {
        (wa - wb) as u128
    } else {
        (wb - wa) as u128
    }
}

/// The unsigned magnitude of `a - b`, widened.
pub(crate) fn adiff_isize(a: isize, b: isize) -> (r: u128)
    ensures
        r <= 0xffff_ffff_ffff_ffff,
        a != b ==> 1 <= r,
        b <= a ==> r == a - b,
        a < b ==> r == b - a,
{
    let wa: i128 = a as i128;
    let wb: i128 = b as i128;
    if wa >= wb {
        (wa - wb) as u128
    } else {
        (wb - wa) as u128
    }
}

// -------------------------------------------------------------
// Placement: scale the widened offset `d` by `dt / ds`, truncate it to the
// target width, and lay it off from `t0` with wraparound, as the original
// narrow-type addition would. When the offset lies within the source width
// and the target interval ascends, nothing wraps and the result is exact.
// -------------------------------------------------------------

/// Place the offset `d` of width `ds` into the `u8` interval `[t0, t1]`.
pub(crate) fn place_u8(t0: u8, t1: u8, d: u128, ds: u128) -> (r: u8)
    requires
        1 <= ds,
        d <= 0xffff_ffff_ffff_ffff,
    ensures
        (d <= ds && t0 <= t1) ==> (r == t0 + (d * (t1 - t0)) / (ds as int) && t0 <= r <= t1),
{
    let dt: u128 = if t1 >= t0 {
        (t1 - t0) as u128
    } else {
        0xffu128 - ((t0 - t1) as u128) + 1
    };
    proof {
        lemma_prod_fits(d as int, dt as int);
    }
    let q: u128 = (d * dt) / ds;
    proof {
        if d <= ds && t0 <= t1 {
            lemma_scale_bounded(d as int, ds as int, dt as int);
            lemma_small_mod(q as nat, 0x100);
        }
    }
    let qm: u128 = q % 0x100;
    let s: u128 = (t0 as u128) + qm;
    if s >= 0x100 {
        (s - 0x100) as u8
    } else {
        s as u8
    }
}

/// Place the offset `d` of width `ds` into the `u16` interval `[t0, t1]`.
pub(crate) fn place_u16(t0: u16, t1: u16, d: u128, ds: u128) -> (r: u16)
    requires
        1 <= ds,
        d <= 0xffff_ffff_ffff_ffff,
    ensures
        (d <= ds && t0 <= t1) ==> (r == t0 + (d * (t1 - t0)) / (ds as int) && t0 <= r <= t1),
{
    let dt: u128 = if t1 >= t0 {
        (t1 - t0) as u128
    } else {
        0xffffu128 - ((t0 - t1) as u128) + 1
    };
    proof {
        lemma_prod_fits(d as int, dt as int);
    }
    let q: u128 = (d * dt) / ds;
    proof {
        if d <= ds && t0 <= t1 {
            lemma_scale_bounded(d as int, ds as int, dt as int);
            lemma_small_mod(q as nat, 0x1_0000);
        }
    }
    let qm: u128 = q % 0x1_0000;
    let s: u128 = (t0 as u128) + qm;
    if s >= 0x1_0000 {
        (s - 0x1_0000) as u16
    } else {
        s as u16
    }
}

/// Place the offset `d` of width `ds` into the `u32` interval `[t0, t1]`.
pub(crate) fn place_u32(t0: u32, t1: u32, d: u128, ds: u128) -> (r: u32)
    requires
        1 <= ds,
        d <= 0xffff_ffff_ffff_ffff,
    ensures
        (d <= ds && t0 <= t1) ==> (r == t0 + (d * (t1 - t0)) / (ds as int) && t0 <= r <= t1),
{
    let dt: u128 = if t1 >= t0 {
        (t1 - t0) as u128
    } else {
        0xffff_ffffu128 - ((t0 - t1) as u128) + 1
    };
    proof {
        lemma_prod_fits(d as int, dt as int);
    }
    let q: u128 = (d * dt) / ds;
    proof {
        if d <= ds && t0 <= t1 {
            lemma_scale_bounded(d as int, ds as int, dt as int);
            lemma_small_mod(q as nat, 0x1_0000_0000);
        }
    }
    let qm: u128 = q % 0x1_0000_0000;
    let s: u128 = (t0 as u128) + qm;
    if s >= 0x1_0000_0000 {
        (s - 0x1_0000_0000) as u32
    } else {
        s as u32
    }
}

/// Place the offset `d` of width `ds` into the `u64` interval `[t0, t1]`.
pub(crate) fn place_u64(t0: u64, t1: u64, d: u128, ds: u128) -> (r: u64)
    requires
        1 <= ds,
        d <= 0xffff_ffff_ffff_ffff,
    ensures
        (d <= ds && t0 <= t1) ==> (r == t0 + (d * (t1 - t0)) / (ds as int) && t0 <= r <= t1),
{
    let dt: u128 = if t1 >= t0 {
        (t1 - t0) as u128
    } else {
        0xffff_ffff_ffff_ffffu128 - ((t0 - t1) as u128) + 1
    };
    proof {
        lemma_prod_fits(d as int, dt as int);
    }
    let q: u128 = (d * dt) / ds;
    proof {
        if d <= ds && t0 <= t1 {
            lemma_scale_bounded(d as int, ds as int, dt as int);
            lemma_small_mod(q as nat, 0x1_0000_0000_0000_0000);
        }
    }
    let qm: u128 = q % 0x1_0000_0000_0000_0000;
    let s: u128 = (t0 as u128) + qm;
    if s >= 0x1_0000_0000_0000_0000 {
        (s - 0x1_0000_0000_0000_0000) as u64
    } else {
        s as u64
    }
}

/// Place the offset `d` of width `ds` into the `usize` interval `[t0, t1]`.
pub(crate) fn place_usize(t0: usize, t1: usize, d: u128, ds: u128) -> (r: usize)
    requires
        1 <= ds,
        d <= 0xffff_ffff_ffff_ffff,
    ensures
        (d <= ds && t0 <= t1) ==> (r == t0 + (d * (t1 - t0)) / (ds as int) && t0 <= r <= t1),
{
    let md: u128 = (usize::MAX as u128) + 1;
    let dt: u128 = if t1 >= t0 {
        (t1 - t0) as u128
    } else {
        (usize::MAX as u128) - ((t0 - t1) as u128) + 1
    };
    proof {
        lemma_prod_fits(d as int, dt as int);
    }
    let q: u128 = (d * dt) / ds;
    proof {
        if d <= ds && t0 <= t1 {
            lemma_scale_bounded(d as int, ds as int, dt as int);
            lemma_small_mod(q as nat, md as nat);
        }
    }
    let qm: u128 = q % md;
    let s: u128 = (t0 as u128) + qm;
    if s >= md {
        (s - md) as usize
    } else {
        s as usize
    }
}

/// Place the offset `d` of width `ds` into the `i8` interval `[t0, t1]`.
pub(crate) fn place_i8(t0: i8, t1: i8, d: u128, ds: u128) -> (r: i8)
    requires
        1 <= ds,
        d <= 0xffff_ffff_ffff_ffff,
    ensures
        (d <= ds && t0 <= t1) ==> (r == t0 + (d * (t1 - t0)) / (ds as int) && t0 <= r <= t1),
{
    let dt: u128 = adiff_i8(t1, t0);
    proof {
        lemma_prod_fits(d as int, dt as int);
    }
    let q: u128 = (d * dt) / ds;
    proof {
        if d <= ds && t0 <= t1 {
            lemma_scale_bounded(d as int, ds as int, dt as int);
            lemma_small_mod(q as nat, 0x100);
        }
    }
    let qm: u128 = q % 0x100;
    let s: i128 = (t0 as i128) + (qm as i128);
    if s > 0x7f {
        (s - 0x100) as i8
    } else {
        s as i8
    }
}

/// Place the offset `d` of width `ds` into the `i16` interval `[t0, t1]`.
pub(crate) fn place_i16(t0: i16, t1: i16, d: u128, ds: u128) -> (r: i16)
    requires
        1 <= ds,
        d <= 0xffff_ffff_ffff_ffff,
    ensures
        (d <= ds && t0 <= t1) ==> (r == t0 + (d * (t1 - t0)) / (ds as int) && t0 <= r <= t1),
{
    let dt: u128 = adiff_i16(t1, t0);
    proof {
        lemma_prod_fits(d as int, dt as int);
    }
    let q: u128 = (d * dt) / ds;
    proof {
        if d <= ds && t0 <= t1 {
            lemma_scale_bounded(d as int, ds as int, dt as int);
            lemma_small_mod(q as nat, 0x1_0000);
        }
    }
    let qm: u128 = q % 0x1_0000;
    let s: i128 = (t0 as i128) + (qm as i128);
    if s > 0x7fff {
        (s - 0x1_0000) as i16
    } else {
        s as i16
    }
}

/// Place the offset `d` of width `ds` into the `i32` interval `[t0, t1]`.
pub(crate) fn place_i32(t0: i32, t1: i32, d: u128, ds: u128) -> (r: i32)
    requires
        1 <= ds,
        d <= 0xffff_ffff_ffff_ffff,
    ensures
        (d <= ds && t0 <= t1) ==> (r == t0 + (d * (t1 - t0)) / (ds as int) && t0 <= r <= t1),
{
    let dt: u128 = adiff_i32(t1, t0);
    proof {
        lemma_prod_fits(d as int, dt as int);
    }
    let q: u128 = (d * dt) / ds;
    proof {
        if d <= ds && t0 <= t1 {
            lemma_scale_bounded(d as int, ds as int, dt as int);
            lemma_small_mod(q as nat, 0x1_0000_0000);
        }
    }
    let qm: u128 = q % 0x1_0000_0000;
    let s: i128 = (t0 as i128) + (qm as i128);
    if s > 0x7fff_ffff {
        (s - 0x1_0000_0000) as i32
    } else {
        s as i32
    }
}

/// Place the offset `d` of width `ds` into the `i64` interval `[t0, t1]`.
pub(crate) fn place_i64(t0: i64, t1: i64, d: u128, ds: u128) -> (r: i64)
    requires
        1 <= ds,
        d <= 0xffff_ffff_ffff_ffff,
    ensures
        (d <= ds && t0 <= t1) ==> (r == t0 + (d * (t1 - t0)) / (ds as int) && t0 <= r <= t1),
{
    let dt: u128 = adiff_i64(t1, t0);
    proof {
        lemma_prod_fits(d as int, dt as int);
    }
    let q: u128 = (d * dt) / ds;
    proof {
        if d <= ds && t0 <= t1 {
            lemma_scale_bounded(d as int, ds as int, dt as int);
            lemma_small_mod(q as nat, 0x1_0000_0000_0000_0000);
        }
    }
    let qm: u128 = q % 0x1_0000_0000_0000_0000;
    let s: i128 = (t0 as i128) + (qm as i128);
    if s > 0x7fff_ffff_ffff_ffff {
        (s - 0x1_0000_0000_0000_0000) as i64
    } else {
        s as i64
    }
}

/// Place the offset `d` of width `ds` into the `isize` interval `[t0, t1]`.
pub(crate) fn place_isize(t0: isize, t1: isize, d: u128, ds: u128) -> (r: isize)
    requires
        1 <= ds,
        d <= 0xffff_ffff_ffff_ffff,
    ensures
        (d <= ds && t0 <= t1) ==> (r == t0 + (d * (t1 - t0)) / (ds as int) && t0 <= r <= t1),
{
    let md: u128 = ((isize::MAX as u128) + 1) * 2;
    let dt: u128 = adiff_isize(t1, t0);
    proof {
        lemma_prod_fits(d as int, dt as int);
    }
    let q: u128 = (d * dt) / ds;
    proof {
        if d <= ds && t0 <= t1 {
            lemma_scale_bounded(d as int, ds as int, dt as int);
            lemma_small_mod(q as nat, md as nat);
        }
    }
    let qm: u128 = q % md;
    let s: i128 = (t0 as i128) + (qm as i128);
    if s > (isize::MAX as i128) {
        (s - (md as i128)) as isize
    } else {
        s as isize
    }
}

} // verus!
