//! Mapping between unsigned source and signed target types.

use crate::arith::place_i16;
use crate::arith::place_i32;
use crate::arith::place_i64;
use crate::arith::place_i8;
use crate::arith::place_isize;
use crate::arith::wdiff_u16;
use crate::arith::wdiff_u32;
use crate::arith::wdiff_u64;
use crate::arith::wdiff_u8;
use crate::arith::wdiff_usize;
use crate::traits::MapRange;
use vstd::prelude::*;

verus! {

impl MapRange<i8> for u8 {
    fn map_range(self, range: (u8, u8), o_range: (i8, i8)) -> Option<i8> {
        if self < range.0 || self > range.1 {
            return None;
        }
        if o_range.1 < o_range.0 {
            return None;
        }
        Some(self.map_range_unchecked(range, o_range))
    }

    fn map_range_unchecked(self, range: (u8, u8), o_range: (i8, i8)) -> i8 {
        if range.0 == range.1 {
            return o_range.0;
        }
        let d: u128 = wdiff_u8(self, range.0);
        let ds: u128 = wdiff_u8(range.1, range.0);
        place_i8(o_range.0, o_range.1, d, ds)
    }
}

impl MapRange<i16> for u8 {
    fn map_range(self, range: (u8, u8), o_range: (i16, i16)) -> Option<i16> {
        if self < range.0 || self > range.1 {
            return None;
        }
        if o_range.1 < o_range.0 {
            return None;
        }
        Some(self.map_range_unchecked(range, o_range))
    }

    fn map_range_unchecked(self, range: (u8, u8), o_range: (i16, i16)) -> i16 {
        if range.0 == range.1 {
            return o_range.0;
        }
        let d: u128 = wdiff_u8(self, range.0);
        let ds: u128 = wdiff_u8(range.1, range.0);
        place_i16(o_range.0, o_range.1, d, ds)
    }
}

impl MapRange<i32> for u8 {
    fn map_range(self, range: (u8, u8), o_range: (i32, i32)) -> Option<i32> {
        if self < range.0 || self > range.1 {
            return None;
        }
        if o_range.1 < o_range.0 {
            return None;
        }
        Some(self.map_range_unchecked(range, o_range))
    }

    fn map_range_unchecked(self, range: (u8, u8), o_range: (i32, i32)) -> i32 {
        if range.0 == range.1 {
            return o_range.0;
        }
        let d: u128 = wdiff_u8(self, range.0);
        let ds: u128 = wdiff_u8(range.1, range.0);
        place_i32(o_range.0, o_range.1, d, ds)
    }
}

impl MapRange<i64> for u8 {
    fn map_range(self, range: (u8, u8), o_range: (i64, i64)) -> Option<i64> {
        if self < range.0 || self > range.1 {
            return None;
        }
        if o_range.1 < o_range.0 {
            return None;
        }
        Some(self.map_range_unchecked(range, o_range))
    }

    fn map_range_unchecked(self, range: (u8, u8), o_range: (i64, i64)) -> i64 {
        if range.0 == range.1 {
            return o_range.0;
        }
        let d: u128 = wdiff_u8(self, range.0);
        let ds: u128 = wdiff_u8(range.1, range.0);
        place_i64(o_range.0, o_range.1, d, ds)
    }
}

impl MapRange<isize> for u8 {
    fn map_range(self, range: (u8, u8), o_range: (isize, isize)) -> Option<isize> {
        if self < range.0 || self > range.1 {
            return None;
        }
        if o_range.1 < o_range.0 {
            return None;
        }
        Some(self.map_range_unchecked(range, o_range))
    }

    fn map_range_unchecked(self, range: (u8, u8), o_range: (isize, isize)) -> isize {
        if range.0 == range.1 {
            return o_range.0;
        }
        let d: u128 = wdiff_u8(self, range.0);
        let ds: u128 = wdiff_u8(range.1, range.0);
        place_isize(o_range.0, o_range.1, d, ds)
    }
}

impl MapRange<i8> for u16 {
    fn map_range(self, range: (u16, u16), o_range: (i8, i8)) -> Option<i8> {
        if self < range.0 || self > range.1 {
            return None;
        }
        if o_range.1 < o_range.0 {
            return None;
        }
        Some(self.map_range_unchecked(range, o_range))
    }

    fn map_range_unchecked(self, range: (u16, u16), o_range: (i8, i8)) -> i8 {
        if range.0 == range.1 {
            return o_range.0;
        }
        let d: u128 = wdiff_u16(self, range.0);
        let ds: u128 = wdiff_u16(range.1, range.0);
        place_i8(o_range.0, o_range.1, d, ds)
    }
}

impl MapRange<i16> for u16 {
    fn map_range(self, range: (u16, u16), o_range: (i16, i16)) -> Option<i16> {
        if self < range.0 || self > range.1 {
            return None;
        }
        if o_range.1 < o_range.0 {
            return None;
        }
        Some(self.map_range_unchecked(range, o_range))
    }

    fn map_range_unchecked(self, range: (u16, u16), o_range: (i16, i16)) -> i16 {
        if range.0 == range.1 {
            return o_range.0;
        }
        let d: u128 = wdiff_u16(self, range.0);
        let ds: u128 = wdiff_u16(range.1, range.0);
        place_i16(o_range.0, o_range.1, d, ds)
    }
}

impl MapRange<i32> for u16 {
    fn map_range(self, range: (u16, u16), o_range: (i32, i32)) -> Option<i32> {
        if self < range.0 || self > range.1 {
            return None;
        }
        if o_range.1 < o_range.0 {
            return None;
        }
        Some(self.map_range_unchecked(range, o_range))
    }

    fn map_range_unchecked(self, range: (u16, u16), o_range: (i32, i32)) -> i32 {
        if range.0 == range.1 {
            return o_range.0;
        }
        let d: u128 = wdiff_u16(self, range.0);
        let ds: u128 = wdiff_u16(range.1, range.0);
        place_i32(o_range.0, o_range.1, d, ds)
    }
}

impl MapRange<i64> for u16 {
    fn map_range(self, range: (u16, u16), o_range: (i64, i64)) -> Option<i64> {
        if self < range.0 || self > range.1 {
            return None;
        }
        if o_range.1 < o_range.0 {
            return None;
        }
        Some(self.map_range_unchecked(range, o_range))
    }

    fn map_range_unchecked(self, range: (u16, u16), o_range: (i64, i64)) -> i64 {
        if range.0 == range.1 {
            return o_range.0;
        }
        let d: u128 = wdiff_u16(self, range.0);
        let ds: u128 = wdiff_u16(range.1, range.0);
        place_i64(o_range.0, o_range.1, d, ds)
    }
}

impl MapRange<isize> for u16 {
    fn map_range(self, range: (u16, u16), o_range: (isize, isize)) -> Option<isize> {
        if self < range.0 || self > range.1 {
            return None;
        }
        if o_range.1 < o_range.0 {
            return None;
        }
        Some(self.map_range_unchecked(range, o_range))
    }

    fn map_range_unchecked(self, range: (u16, u16), o_range: (isize, isize)) -> isize {
        if range.0 == range.1 {
            return o_range.0;
        }
        let d: u128 = wdiff_u16(self, range.0);
        let ds: u128 = wdiff_u16(range.1, range.0);
        place_isize(o_range.0, o_range.1, d, ds)
    }
}

impl MapRange<i8> for u32 {
    fn map_range(self, range: (u32, u32), o_range: (i8, i8)) -> Option<i8> {
        if self < range.0 || self > range.1 {
            return None;
        }
        if o_range.1 < o_range.0 {
            return None;
        }
        Some(self.map_range_unchecked(range, o_range))
    }

    fn map_range_unchecked(self, range: (u32, u32), o_range: (i8, i8)) -> i8 {
        if range.0 == range.1 {
            return o_range.0;
        }
        let d: u128 = wdiff_u32(self, range.0);
        let ds: u128 = wdiff_u32(range.1, range.0);
        place_i8(o_range.0, o_range.1, d, ds)
    }
}

impl MapRange<i16> for u32 {
    fn map_range(self, range: (u32, u32), o_range: (i16, i16)) -> Option<i16> {
        if self < range.0 || self > range.1 {
            return None;
        }
        if o_range.1 < o_range.0 {
            return None;
        }
        Some(self.map_range_unchecked(range, o_range))
    }

    fn map_range_unchecked(self, range: (u32, u32), o_range: (i16, i16)) -> i16 {
        if range.0 == range.1 {
            return o_range.0;
        }
        let d: u128 = wdiff_u32(self, range.0);
        let ds: u128 = wdiff_u32(range.1, range.0);
        place_i16(o_range.0, o_range.1, d, ds)
    }
}

impl MapRange<i32> for u32 {
    fn map_range(self, range: (u32, u32), o_range: (i32, i32)) -> Option<i32> {
        if self < range.0 || self > range.1 {
            return None;
        }
        if o_range.1 < o_range.0 {
            return None;
        }
        Some(self.map_range_unchecked(range, o_range))
    }

    fn map_range_unchecked(self, range: (u32, u32), o_range: (i32, i32)) -> i32 {
        if range.0 == range.1 {
            return o_range.0;
        }
        let d: u128 = wdiff_u32(self, range.0);
        let ds: u128 = wdiff_u32(range.1, range.0);
        place_i32(o_range.0, o_range.1, d, ds)
    }
}

impl MapRange<i64> for u32 {
    fn map_range(self, range: (u32, u32), o_range: (i64, i64)) -> Option<i64> {
        if self < range.0 || self > range.1 {
            return None;
        }
        if o_range.1 < o_range.0 {
            return None;
        }
        Some(self.map_range_unchecked(range, o_range))
    }

    fn map_range_unchecked(self, range: (u32, u32), o_range: (i64, i64)) -> i64 {
        if range.0 == range.1 {
            return o_range.0;
        }
        let d: u128 = wdiff_u32(self, range.0);
        let ds: u128 = wdiff_u32(range.1, range.0);
        place_i64(o_range.0, o_range.1, d, ds)
    }
}

impl MapRange<isize> for u32 {
    fn map_range(self, range: (u32, u32), o_range: (isize, isize)) -> Option<isize> {
        if self < range.0 || self > range.1 {
            return None;
        }
        if o_range.1 < o_range.0 {
            return None;
        }
        Some(self.map_range_unchecked(range, o_range))
    }

    fn map_range_unchecked(self, range: (u32, u32), o_range: (isize, isize)) -> isize {
        if range.0 == range.1 {
            return o_range.0;
        }
        let d: u128 = wdiff_u32(self, range.0);
        let ds: u128 = wdiff_u32(range.1, range.0);
        place_isize(o_range.0, o_range.1, d, ds)
    }
}

impl MapRange<i8> for u64 {
    fn map_range(self, range: (u64, u64), o_range: (i8, i8)) -> Option<i8> {
        if self < range.0 || self > range.1 {
            return None;
        }
        if o_range.1 < o_range.0 {
            return None;
        }
        Some(self.map_range_unchecked(range, o_range))
    }

    fn map_range_unchecked(self, range: (u64, u64), o_range: (i8, i8)) -> i8 {
        if range.0 == range.1 {
            return o_range.0;
        }
        let d: u128 = wdiff_u64(self, range.0);
        let ds: u128 = wdiff_u64(range.1, range.0);
        place_i8(o_range.0, o_range.1, d, ds)
    }
}

impl MapRange<i16> for u64 {
    fn map_range(self, range: (u64, u64), o_range: (i16, i16)) -> Option<i16> {
        if self < range.0 || self > range.1 {
            return None;
        }
        if o_range.1 < o_range.0 {
            return None;
        }
        Some(self.map_range_unchecked(range, o_range))
    }

    fn map_range_unchecked(self, range: (u64, u64), o_range: (i16, i16)) -> i16 {
        if range.0 == range.1 {
            return o_range.0;
        }
        let d: u128 = wdiff_u64(self, range.0);
        let ds: u128 = wdiff_u64(range.1, range.0);
        place_i16(o_range.0, o_range.1, d, ds)
    }
}

impl MapRange<i32> for u64 {
    fn map_range(self, range: (u64, u64), o_range: (i32, i32)) -> Option<i32> {
        if self < range.0 || self > range.1 {
            return None;
        }
        if o_range.1 < o_range.0 {
            return None;
        }
        Some(self.map_range_unchecked(range, o_range))
    }

    fn map_range_unchecked(self, range: (u64, u64), o_range: (i32, i32)) -> i32 {
        if range.0 == range.1 {
            return o_range.0;
        }
        let d: u128 = wdiff_u64(self, range.0);
        let ds: u128 = wdiff_u64(range.1, range.0);
        place_i32(o_range.0, o_range.1, d, ds)
    }
}

impl MapRange<i64> for u64 {
    fn map_range(self, range: (u64, u64), o_range: (i64, i64)) -> Option<i64> {
        if self < range.0 || self > range.1 {
            return None;
        }
        if o_range.1 < o_range.0 {
            return None;
        }
        Some(self.map_range_unchecked(range, o_range))
    }

    fn map_range_unchecked(self, range: (u64, u64), o_range: (i64, i64)) -> i64 {
        if range.0 == range.1 {
            return o_range.0;
        }
        let d: u128 = wdiff_u64(self, range.0);
        let ds: u128 = wdiff_u64(range.1, range.0);
        place_i64(o_range.0, o_range.1, d, ds)
    }
}

impl MapRange<isize> for u64 {
    fn map_range(self, range: (u64, u64), o_range: (isize, isize)) -> Option<isize> {
        if self < range.0 || self > range.1 {
            return None;
        }
        if o_range.1 < o_range.0 {
            return None;
        }
        Some(self.map_range_unchecked(range, o_range))
    }

    fn map_range_unchecked(self, range: (u64, u64), o_range: (isize, isize)) -> isize {
        if range.0 == range.1 {
            return o_range.0;
        }
        let d: u128 = wdiff_u64(self, range.0);
        let ds: u128 = wdiff_u64(range.1, range.0);
        place_isize(o_range.0, o_range.1, d, ds)
    }
}

impl MapRange<i8> for usize {
    fn map_range(self, range: (usize, usize), o_range: (i8, i8)) -> Option<i8> {
        if self < range.0 || self > range.1 {
            return None;
        }
        if o_range.1 < o_range.0 {
            return None;
        }
        Some(self.map_range_unchecked(range, o_range))
    }

    fn map_range_unchecked(self, range: (usize, usize), o_range: (i8, i8)) -> i8 {
        if range.0 == range.1 {
            return o_range.0;
        }
        let d: u128 = wdiff_usize(self, range.0);
        let ds: u128 = wdiff_usize(range.1, range.0);
        place_i8(o_range.0, o_range.1, d, ds)
    }
}

impl MapRange<i16> for usize {
    fn map_range(self, range: (usize, usize), o_range: (i16, i16)) -> Option<i16> {
        if self < range.0 || self > range.1 {
            return None;
        }
        if o_range.1 < o_range.0 {
            return None;
        }
        Some(self.map_range_unchecked(range, o_range))
    }

    fn map_range_unchecked(self, range: (usize, usize), o_range: (i16, i16)) -> i16 {
        if range.0 == range.1 {
            return o_range.0;
        }
        let d: u128 = wdiff_usize(self, range.0);
        let ds: u128 = wdiff_usize(range.1, range.0);
        place_i16(o_range.0, o_range.1, d, ds)
    }
}

impl MapRange<i32> for usize {
    fn map_range(self, range: (usize, usize), o_range: (i32, i32)) -> Option<i32> {
        if self < range.0 || self > range.1 {
            return None;
        }
        if o_range.1 < o_range.0 {
            return None;
        }
        Some(self.map_range_unchecked(range, o_range))
    }

    fn map_range_unchecked(self, range: (usize, usize), o_range: (i32, i32)) -> i32 {
        if range.0 == range.1 {
            return o_range.0;
        }
        let d: u128 = wdiff_usize(self, range.0);
        let ds: u128 = wdiff_usize(range.1, range.0);
        place_i32(o_range.0, o_range.1, d, ds)
    }
}

impl MapRange<i64> for usize {
    fn map_range(self, range: (usize, usize), o_range: (i64, i64)) -> Option<i64> {
        if self < range.0 || self > range.1 {
            return None;
        }
        if o_range.1 < o_range.0 {
            return None;
        }
        Some(self.map_range_unchecked(range, o_range))
    }

    fn map_range_unchecked(self, range: (usize, usize), o_range: (i64, i64)) -> i64 {
        if range.0 == range.1 {
            return o_range.0;
        }
        let d: u128 = wdiff_usize(self, range.0);
        let ds: u128 = wdiff_usize(range.1, range.0);
        place_i64(o_range.0, o_range.1, d, ds)
    }
}

impl MapRange<isize> for usize {
    fn map_range(self, range: (usize, usize), o_range: (isize, isize)) -> Option<isize> {
        if self < range.0 || self > range.1 {
            return None;
        }
        if o_range.1 < o_range.0 {
            return None;
        }
        Some(self.map_range_unchecked(range, o_range))
    }

    fn map_range_unchecked(self, range: (usize, usize), o_range: (isize, isize)) -> isize {
        if range.0 == range.1 {
            return o_range.0;
        }
        let d: u128 = wdiff_usize(self, range.0);
        let ds: u128 = wdiff_usize(range.1, range.0);
        place_isize(o_range.0, o_range.1, d, ds)
    }
}

} // verus!
