//! Clamped stepping: add or subtract an unsigned delta with saturating
//! arithmetic, then clamp the result into an explicit bound pair.

use crate::model::clamp_spec;
use crate::model::in_interval;
use crate::model::sat_add_spec;
use crate::model::sat_sub_spec;
use crate::repr::IntRepr;
use vstd::prelude::*;

verus! {

/// Step a value by a delta and clamp it into a bound pair.
///
/// The delta is a magnitude; the direction is chosen by the operation. The
/// sum or difference saturates at the representable range of the value's
/// type before clamping, so neither operation can overflow or panic, and
/// for ascending bounds the result always lies within them. Reversed
/// bounds are not rejected: the clamp is `min(max(x, lo), hi)`, so the
/// upper bound wins.
pub trait RangeOp<D: IntRepr>: IntRepr {
    /// `self + delta`, saturating, clamped into `bounds`.
    fn add_clamp(self, delta: D, bounds: (Self, Self)) -> (r: Self)
        ensures
            r.as_int() == clamp_spec(
                sat_add_spec(self.as_int(), delta.as_int(), Self::max_spec()),
                bounds.0.as_int(),
                bounds.1.as_int(),
            ),
            bounds.0.as_int() <= bounds.1.as_int() ==> in_interval(
                r.as_int(),
                bounds.0.as_int(),
                bounds.1.as_int(),
            ),
    ;

    /// `self - delta`, saturating, clamped into `bounds`.
    fn sub_clamp(self, delta: D, bounds: (Self, Self)) -> (r: Self)
        ensures
            r.as_int() == clamp_spec(
                sat_sub_spec(self.as_int(), delta.as_int(), Self::min_spec()),
                bounds.0.as_int(),
                bounds.1.as_int(),
            ),
            bounds.0.as_int() <= bounds.1.as_int() ==> in_interval(
                r.as_int(),
                bounds.0.as_int(),
                bounds.1.as_int(),
            ),
    ;
}

impl RangeOp<u8> for u8 {
    fn add_clamp(self, delta: u8, bounds: (u8, u8)) -> (r: u8) {
        let w: u128 = (self as u128) + (delta as u128);
        let s: u8 = if w > 0xff {
            0xff
        } else {
            w as u8
        };
        let m: u8 = if s < bounds.0 {
            bounds.0
        } else {
            s
        };
        if m > bounds.1 {
            bounds.1
        } else {
            m
        }
    }

    fn sub_clamp(self, delta: u8, bounds: (u8, u8)) -> (r: u8) {
        let s: u8 = if delta > self {
            0
        } else {
            self - delta
        };
        let m: u8 = if s < bounds.0 {
            bounds.0
        } else {
            s
        };
        if m > bounds.1 {
            bounds.1
        } else {
            m
        }
    }
}

impl RangeOp<u8> for i8 {
    fn add_clamp(self, delta: u8, bounds: (i8, i8)) -> (r: i8) {
        let w: i128 = (self as i128) + (delta as i128);
        let s: i8 = if w > 0x7f {
            0x7f
        } else {
            w as i8
        };
        let m: i8 = if s < bounds.0 {
            bounds.0
        } else {
            s
        };
        if m > bounds.1 {
            bounds.1
        } else {
            m
        }
    }

    fn sub_clamp(self, delta: u8, bounds: (i8, i8)) -> (r: i8) {
        let w: i128 = (self as i128) - (delta as i128);
        let s: i8 = if w < -0x80 {
            -0x80
        } else {
            w as i8
        };
        let m: i8 = if s < bounds.0 {
            bounds.0
        } else {
            s
        };
        if m > bounds.1 {
            bounds.1
        } else {
            m
        }
    }
}

impl RangeOp<u16> for u16 {
    fn add_clamp(self, delta: u16, bounds: (u16, u16)) -> (r: u16) {
        let w: u128 = (self as u128) + (delta as u128);
        let s: u16 = if w > 0xffff {
            0xffff
        } else {
            w as u16
        };
        let m: u16 = if s < bounds.0 {
            bounds.0
        } else {
            s
        };
        if m > bounds.1 {
            bounds.1
        } else {
            m
        }
    }

    fn sub_clamp(self, delta: u16, bounds: (u16, u16)) -> (r: u16) {
        let s: u16 = if delta > self {
            0
        } else {
            self - delta
        };
        let m: u16 = if s < bounds.0 {
            bounds.0
        } else {
            s
        };
        if m > bounds.1 {
            bounds.1
        } else {
            m
        }
    }
}

impl RangeOp<u16> for i16 {
    fn add_clamp(self, delta: u16, bounds: (i16, i16)) -> (r: i16) {
        let w: i128 = (self as i128) + (delta as i128);
        let s: i16 = if w > 0x7fff {
            0x7fff
        } else {
            w as i16
        };
        let m: i16 = if s < bounds.0 {
            bounds.0
        } else {
            s
        };
        if m > bounds.1 {
            bounds.1
        } else {
            m
        }
    }

    fn sub_clamp(self, delta: u16, bounds: (i16, i16)) -> (r: i16) {
        let w: i128 = (self as i128) - (delta as i128);
        let s: i16 = if w < -0x8000 {
            -0x8000
        } else {
            w as i16
        };
        let m: i16 = if s < bounds.0 {
            bounds.0
        } else {
            s
        };
        if m > bounds.1 {
            bounds.1
        } else {
            m
        }
    }
}

impl RangeOp<u32> for u32 {
    fn add_clamp(self, delta: u32, bounds: (u32, u32)) -> (r: u32) {
        let w: u128 = (self as u128) + (delta as u128);
        let s: u32 = if w > 0xffff_ffff {
            0xffff_ffff
        } else {
            w as u32
        };
        let m: u32 = if s < bounds.0 {
            bounds.0
        } else {
            s
        };
        if m > bounds.1 {
            bounds.1
        } else {
            m
        }
    }

    fn sub_clamp(self, delta: u32, bounds: (u32, u32)) -> (r: u32) {
        let s: u32 = if delta > self {
            0
        } else {
            self - delta
        };
        let m: u32 = if s < bounds.0 {
            bounds.0
        } else {
            s
        };
        if m > bounds.1 {
            bounds.1
        } else {
            m
        }
    }
}

impl RangeOp<u32> for i32 {
    fn add_clamp(self, delta: u32, bounds: (i32, i32)) -> (r: i32) {
        let w: i128 = (self as i128) + (delta as i128);
        let s: i32 = if w > 0x7fff_ffff {
            0x7fff_ffff
        } else {
            w as i32
        };
        let m: i32 = if s < bounds.0 {
            bounds.0
        } else {
            s
        };
        if m > bounds.1 {
            bounds.1
        } else {
            m
        }
    }

    fn sub_clamp(self, delta: u32, bounds: (i32, i32)) -> (r: i32) {
        let w: i128 = (self as i128) - (delta as i128);
        let s: i32 = if w < -0x8000_0000 {
            -0x8000_0000
        } else {
            w as i32
        };
        let m: i32 = if s < bounds.0 {
            bounds.0
        } else {
            s
        };
        if m > bounds.1 {
            bounds.1
        } else {
            m
        }
    }
}

impl RangeOp<u64> for u64 {
    fn add_clamp(self, delta: u64, bounds: (u64, u64)) -> (r: u64) {
        let w: u128 = (self as u128) + (delta as u128);
        let s: u64 = if w > 0xffff_ffff_ffff_ffff {
            0xffff_ffff_ffff_ffff
        } else {
            w as u64
        };
        let m: u64 = if s < bounds.0 {
            bounds.0
        } else {
            s
        };
        if m > bounds.1 {
            bounds.1
        } else {
            m
        }
    }

    fn sub_clamp(self, delta: u64, bounds: (u64, u64)) -> (r: u64) {
        let s: u64 = if delta > self {
            0
        } else {
            self - delta
        };
        let m: u64 = if s < bounds.0 {
            bounds.0
        } else {
            s
        };
        if m > bounds.1 {
            bounds.1
        } else {
            m
        }
    }
}

impl RangeOp<u64> for i64 {
    fn add_clamp(self, delta: u64, bounds: (i64, i64)) -> (r: i64) {
        let w: i128 = (self as i128) + (delta as i128);
        let s: i64 = if w > 0x7fff_ffff_ffff_ffff {
            0x7fff_ffff_ffff_ffff
        } else {
            w as i64
        };
        let m: i64 = if s < bounds.0 {
            bounds.0
        } else {
            s
        };
        if m > bounds.1 {
            bounds.1
        } else {
            m
        }
    }

    fn sub_clamp(self, delta: u64, bounds: (i64, i64)) -> (r: i64) {
        let w: i128 = (self as i128) - (delta as i128);
        let s: i64 = if w < -0x8000_0000_0000_0000 {
            -0x8000_0000_0000_0000
        } else {
            w as i64
        };
        let m: i64 = if s < bounds.0 {
            bounds.0
        } else {
            s
        };
        if m > bounds.1 {
            bounds.1
        } else {
            m
        }
    }
}

impl RangeOp<usize> for usize {
    fn add_clamp(self, delta: usize, bounds: (usize, usize)) -> (r: usize) {
        let w: u128 = (self as u128) + (delta as u128);
        let s: usize = if w > (usize::MAX as u128) {
            usize::MAX
        } else {
            w as usize
        };
        let m: usize = if s < bounds.0 {
            bounds.0
        } else {
            s
        };
        if m > bounds.1 {
            bounds.1
        } else {
            m
        }
    }

    fn sub_clamp(self, delta: usize, bounds: (usize, usize)) -> (r: usize) {
        let s: usize = if delta > self {
            0
        } else {
            self - delta
        };
        let m: usize = if s < bounds.0 {
            bounds.0
        } else {
            s
        };
        if m > bounds.1 {
            bounds.1
        } else {
            m
        }
    }
}

impl RangeOp<usize> for isize {
    fn add_clamp(self, delta: usize, bounds: (isize, isize)) -> (r: isize) {
        let w: i128 = (self as i128) + (delta as i128);
        let s: isize = if w > (isize::MAX as i128) {
            isize::MAX
        } else {
            w as isize
        };
        let m: isize = if s < bounds.0 {
            bounds.0
        } else {
            s
        };
        if m > bounds.1 {
            bounds.1
        } else {
            m
        }
    }

    fn sub_clamp(self, delta: usize, bounds: (isize, isize)) -> (r: isize) {
        let w: i128 = (self as i128) - (delta as i128);
        let s: isize = if w < (isize::MIN as i128) {
            isize::MIN
        } else {
            w as isize
        };
        let m: isize = if s < bounds.0 {
            bounds.0
        } else {
            s
        };
        if m > bounds.1 {
            bounds.1
        } else {
            m
        }
    }
}

} // verus!
