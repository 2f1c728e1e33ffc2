//! Mapping between signed source and unsigned target types.

use crate::arith::adiff_i16;
use crate::arith::adiff_i32;
use crate::arith::adiff_i64;
use crate::arith::adiff_i8;
use crate::arith::adiff_isize;
use crate::arith::place_u16;
use crate::arith::place_u32;
use crate::arith::place_u64;
use crate::arith::place_u8;
use crate::arith::place_usize;
use crate::traits::MapRange;
use vstd::prelude::*;

verus! {

impl MapRange<u8> for i8 {
    fn map_range(self, range: (i8, i8), o_range: (u8, u8)) -> Option<u8> {
        if self < range.0 || self > range.1 {
            return None;
        }
        if o_range.1 < o_range.0 {
            return None;
        }
        Some(self.map_range_unchecked(range, o_range))
    }

    fn map_range_unchecked(self, range: (i8, i8), o_range: (u8, u8)) -> u8 {
        if range.0 == range.1 {
            return o_range.0;
        }
        let d: u128 = adiff_i8(self, range.0);
        let ds: u128 = adiff_i8(range.1, range.0);
        place_u8(o_range.0, o_range.1, d, ds)
    }
}

impl MapRange<u16> for i8 {
    fn map_range(self, range: (i8, i8), o_range: (u16, u16)) -> Option<u16> {
        if self < range.0 || self > range.1 {
            return None;
        }
        if o_range.1 < o_range.0 {
            return None;
        }
        Some(self.map_range_unchecked(range, o_range))
    }

    fn map_range_unchecked(self, range: (i8, i8), o_range: (u16, u16)) -> u16 {
        if range.0 == range.1 {
            return o_range.0;
        }
        let d: u128 = adiff_i8(self, range.0);
        let ds: u128 = adiff_i8(range.1, range.0);
        place_u16(o_range.0, o_range.1, d, ds)
    }
}

impl MapRange<u32> for i8 {
    fn map_range(self, range: (i8, i8), o_range: (u32, u32)) -> Option<u32> {
        if self < range.0 || self > range.1 {
            return None;
        }
        if o_range.1 < o_range.0 {
            return None;
        }
        Some(self.map_range_unchecked(range, o_range))
    }

    fn map_range_unchecked(self, range: (i8, i8), o_range: (u32, u32)) -> u32 {
        if range.0 == range.1 {
            return o_range.0;
        }
        let d: u128 = adiff_i8(self, range.0);
        let ds: u128 = adiff_i8(range.1, range.0);
        place_u32(o_range.0, o_range.1, d, ds)
    }
}

impl MapRange<u64> for i8 {
    fn map_range(self, range: (i8, i8), o_range: (u64, u64)) -> Option<u64> {
        if self < range.0 || self > range.1 {
            return None;
        }
        if o_range.1 < o_range.0 {
            return None;
        }
        Some(self.map_range_unchecked(range, o_range))
    }

    fn map_range_unchecked(self, range: (i8, i8), o_range: (u64, u64)) -> u64 {
        if range.0 == range.1 {
            return o_range.0;
        }
        let d: u128 = adiff_i8(self, range.0);
        let ds: u128 = adiff_i8(range.1, range.0);
        place_u64(o_range.0, o_range.1, d, ds)
    }
}

impl MapRange<usize> for i8 {
    fn map_range(self, range: (i8, i8), o_range: (usize, usize)) -> Option<usize> {
        if self < range.0 || self > range.1 {
            return None;
        }
        if o_range.1 < o_range.0 {
            return None;
        }
        Some(self.map_range_unchecked(range, o_range))
    }

    fn map_range_unchecked(self, range: (i8, i8), o_range: (usize, usize)) -> usize {
        if range.0 == range.1 {
            return o_range.0;
        }
        let d: u128 = adiff_i8(self, range.0);
        let ds: u128 = adiff_i8(range.1, range.0);
        place_usize(o_range.0, o_range.1, d, ds)
    }
}

impl MapRange<u8> for i16 {
    fn map_range(self, range: (i16, i16), o_range: (u8, u8)) -> Option<u8> {
        if self < range.0 || self > range.1 {
            return None;
        }
        if o_range.1 < o_range.0 {
            return None;
        }
        Some(self.map_range_unchecked(range, o_range))
    }

    fn map_range_unchecked(self, range: (i16, i16), o_range: (u8, u8)) -> u8 {
        if range.0 == range.1 {
            return o_range.0;
        }
        let d: u128 = adiff_i16(self, range.0);
        let ds: u128 = adiff_i16(range.1, range.0);
        place_u8(o_range.0, o_range.1, d, ds)
    }
}

impl MapRange<u16> for i16 {
    fn map_range(self, range: (i16, i16), o_range: (u16, u16)) -> Option<u16> {
        if self < range.0 || self > range.1 {
            return None;
        }
        if o_range.1 < o_range.0 {
            return None;
        }
        Some(self.map_range_unchecked(range, o_range))
    }

    fn map_range_unchecked(self, range: (i16, i16), o_range: (u16, u16)) -> u16 {
        if range.0 == range.1 {
            return o_range.0;
        }
        let d: u128 = adiff_i16(self, range.0);
        let ds: u128 = adiff_i16(range.1, range.0);
        place_u16(o_range.0, o_range.1, d, ds)
    }
}

impl MapRange<u32> for i16 {
    fn map_range(self, range: (i16, i16), o_range: (u32, u32)) -> Option<u32> {
        if self < range.0 || self > range.1 {
            return None;
        }
        if o_range.1 < o_range.0 {
            return None;
        }
        Some(self.map_range_unchecked(range, o_range))
    }

    fn map_range_unchecked(self, range: (i16, i16), o_range: (u32, u32)) -> u32 {
        if range.0 == range.1 {
            return o_range.0;
        }
        let d: u128 = adiff_i16(self, range.0);
        let ds: u128 = adiff_i16(range.1, range.0);
        place_u32(o_range.0, o_range.1, d, ds)
    }
}

impl MapRange<u64> for i16 {
    fn map_range(self, range: (i16, i16), o_range: (u64, u64)) -> Option<u64> {
        if self < range.0 || self > range.1 {
            return None;
        }
        if o_range.1 < o_range.0 {
            return None;
        }
        Some(self.map_range_unchecked(range, o_range))
    }

    fn map_range_unchecked(self, range: (i16, i16), o_range: (u64, u64)) -> u64 {
        if range.0 == range.1 {
            return o_range.0;
        }
        let d: u128 = adiff_i16(self, range.0);
        let ds: u128 = adiff_i16(range.1, range.0);
        place_u64(o_range.0, o_range.1, d, ds)
    }
}

impl MapRange<usize> for i16 {
    fn map_range(self, range: (i16, i16), o_range: (usize, usize)) -> Option<usize> {
        if self < range.0 || self > range.1 {
            return None;
        }
        if o_range.1 < o_range.0 {
            return None;
        }
        Some(self.map_range_unchecked(range, o_range))
    }

    fn map_range_unchecked(self, range: (i16, i16), o_range: (usize, usize)) -> usize {
        if range.0 == range.1 {
            return o_range.0;
        }
        let d: u128 = adiff_i16(self, range.0);
        let ds: u128 = adiff_i16(range.1, range.0);
        place_usize(o_range.0, o_range.1, d, ds)
    }
}

impl MapRange<u8> for i32 {
    fn map_range(self, range: (i32, i32), o_range: (u8, u8)) -> Option<u8> {
        if self < range.0 || self > range.1 {
            return None;
        }
        if o_range.1 < o_range.0 {
            return None;
        }
        Some(self.map_range_unchecked(range, o_range))
    }

    fn map_range_unchecked(self, range: (i32, i32), o_range: (u8, u8)) -> u8 {
        if range.0 == range.1 {
            return o_range.0;
        }
        let d: u128 = adiff_i32(self, range.0);
        let ds: u128 = adiff_i32(range.1, range.0);
        place_u8(o_range.0, o_range.1, d, ds)
    }
}

impl MapRange<u16> for i32 {
    fn map_range(self, range: (i32, i32), o_range: (u16, u16)) -> Option<u16> {
        if self < range.0 || self > range.1 {
            return None;
        }
        if o_range.1 < o_range.0 {
            return None;
        }
        Some(self.map_range_unchecked(range, o_range))
    }

    fn map_range_unchecked(self, range: (i32, i32), o_range: (u16, u16)) -> u16 {
        if range.0 == range.1 {
            return o_range.0;
        }
        let d: u128 = adiff_i32(self, range.0);
        let ds: u128 = adiff_i32(range.1, range.0);
        place_u16(o_range.0, o_range.1, d, ds)
    }
}

impl MapRange<u32> for i32 {
    fn map_range(self, range: (i32, i32), o_range: (u32, u32)) -> Option<u32> {
        if self < range.0 || self > range.1 {
            return None;
        }
        if o_range.1 < o_range.0 {
            return None;
        }
        Some(self.map_range_unchecked(range, o_range))
    }

    fn map_range_unchecked(self, range: (i32, i32), o_range: (u32, u32)) -> u32 {
        if range.0 == range.1 {
            return o_range.0;
        }
        let d: u128 = adiff_i32(self, range.0);
        let ds: u128 = adiff_i32(range.1, range.0);
        place_u32(o_range.0, o_range.1, d, ds)
    }
}

impl MapRange<u64> for i32 {
    fn map_range(self, range: (i32, i32), o_range: (u64, u64)) -> Option<u64> {
        if self < range.0 || self > range.1 {
            return None;
        }
        if o_range.1 < o_range.0 {
            return None;
        }
        Some(self.map_range_unchecked(range, o_range))
    }

    fn map_range_unchecked(self, range: (i32, i32), o_range: (u64, u64)) -> u64 {
        if range.0 == range.1 {
            return o_range.0;
        }
        let d: u128 = adiff_i32(self, range.0);
        let ds: u128 = adiff_i32(range.1, range.0);
        place_u64(o_range.0, o_range.1, d, ds)
    }
}

impl MapRange<usize> for i32 {
    fn map_range(self, range: (i32, i32), o_range: (usize, usize)) -> Option<usize> {
        if self < range.0 || self > range.1 {
            return None;
        }
        if o_range.1 < o_range.0 {
            return None;
        }
        Some(self.map_range_unchecked(range, o_range))
    }

    fn map_range_unchecked(self, range: (i32, i32), o_range: (usize, usize)) -> usize {
        if range.0 == range.1 {
            return o_range.0;
        }
        let d: u128 = adiff_i32(self, range.0);
        let ds: u128 = adiff_i32(range.1, range.0);
        place_usize(o_range.0, o_range.1, d, ds)
    }
}

impl MapRange<u8> for i64 {
    fn map_range(self, range: (i64, i64), o_range: (u8, u8)) -> Option<u8> {
        if self < range.0 || self > range.1 {
            return None;
        }
        if o_range.1 < o_range.0 {
            return None;
        }
        Some(self.map_range_unchecked(range, o_range))
    }

    fn map_range_unchecked(self, range: (i64, i64), o_range: (u8, u8)) -> u8 {
        if range.0 == range.1 {
            return o_range.0;
        }
        let d: u128 = adiff_i64(self, range.0);
        let ds: u128 = adiff_i64(range.1, range.0);
        place_u8(o_range.0, o_range.1, d, ds)
    }
}

impl MapRange<u16> for i64 {
    fn map_range(self, range: (i64, i64), o_range: (u16, u16)) -> Option<u16> {
        if self < range.0 || self > range.1 {
            return None;
        }
        if o_range.1 < o_range.0 {
            return None;
        }
        Some(self.map_range_unchecked(range, o_range))
    }

    fn map_range_unchecked(self, range: (i64, i64), o_range: (u16, u16)) -> u16 {
        if range.0 == range.1 {
            return o_range.0;
        }
        let d: u128 = adiff_i64(self, range.0);
        let ds: u128 = adiff_i64(range.1, range.0);
        place_u16(o_range.0, o_range.1, d, ds)
    }
}

impl MapRange<u32> for i64 {
    fn map_range(self, range: (i64, i64), o_range: (u32, u32)) -> Option<u32> {
        if self < range.0 || self > range.1 {
            return None;
        }
        if o_range.1 < o_range.0 {
            return None;
        }
        Some(self.map_range_unchecked(range, o_range))
    }

    fn map_range_unchecked(self, range: (i64, i64), o_range: (u32, u32)) -> u32 {
        if range.0 == range.1 {
            return o_range.0;
        }
        let d: u128 = adiff_i64(self, range.0);
        let ds: u128 = adiff_i64(range.1, range.0);
        place_u32(o_range.0, o_range.1, d, ds)
    }
}

impl MapRange<u64> for i64 {
    fn map_range(self, range: (i64, i64), o_range: (u64, u64)) -> Option<u64> {
        if self < range.0 || self > range.1 {
            return None;
        }
        if o_range.1 < o_range.0 {
            return None;
        }
        Some(self.map_range_unchecked(range, o_range))
    }

    fn map_range_unchecked(self, range: (i64, i64), o_range: (u64, u64)) -> u64 {
        if range.0 == range.1 {
            return o_range.0;
        }
        let d: u128 = adiff_i64(self, range.0);
        let ds: u128 = adiff_i64(range.1, range.0);
        place_u64(o_range.0, o_range.1, d, ds)
    }
}

impl MapRange<usize> for i64 {
    fn map_range(self, range: (i64, i64), o_range: (usize, usize)) -> Option<usize> {
        if self < range.0 || self > range.1 {
            return None;
        }
        if o_range.1 < o_range.0 {
            return None;
        }
        Some(self.map_range_unchecked(range, o_range))
    }

    fn map_range_unchecked(self, range: (i64, i64), o_range: (usize, usize)) -> usize {
        if range.0 == range.1 {
            return o_range.0;
        }
        let d: u128 = adiff_i64(self, range.0);
        let ds: u128 = adiff_i64(range.1, range.0);
        place_usize(o_range.0, o_range.1, d, ds)
    }
}

impl MapRange<u8> for isize {
    fn map_range(self, range: (isize, isize), o_range: (u8, u8)) -> Option<u8> {
        if self < range.0 || self > range.1 {
            return None;
        }
        if o_range.1 < o_range.0 {
            return None;
        }
        Some(self.map_range_unchecked(range, o_range))
    }

    fn map_range_unchecked(self, range: (isize, isize), o_range: (u8, u8)) -> u8 {
        if range.0 == range.1 {
            return o_range.0;
        }
        let d: u128 = adiff_isize(self, range.0);
        let ds: u128 = adiff_isize(range.1, range.0);
        place_u8(o_range.0, o_range.1, d, ds)
    }
}

impl MapRange<u16> for isize {
    fn map_range(self, range: (isize, isize), o_range: (u16, u16)) -> Option<u16> {
        if self < range.0 || self > range.1 {
            return None;
        }
        if o_range.1 < o_range.0 {
            return None;
        }
        Some(self.map_range_unchecked(range, o_range))
    }

    fn map_range_unchecked(self, range: (isize, isize), o_range: (u16, u16)) -> u16 {
        if range.0 == range.1 {
            return o_range.0;
        }
        let d: u128 = adiff_isize(self, range.0);
        let ds: u128 = adiff_isize(range.1, range.0);
        place_u16(o_range.0, o_range.1, d, ds)
    }
}

impl MapRange<u32> for isize {
    fn map_range(self, range: (isize, isize), o_range: (u32, u32)) -> Option<u32> {
        if self < range.0 || self > range.1 {
            return None;
        }
        if o_range.1 < o_range.0 {
            return None;
        }
        Some(self.map_range_unchecked(range, o_range))
    }

    fn map_range_unchecked(self, range: (isize, isize), o_range: (u32, u32)) -> u32 {
        if range.0 == range.1 {
            return o_range.0;
        }
        let d: u128 = adiff_isize(self, range.0);
        let ds: u128 = adiff_isize(range.1, range.0);
        place_u32(o_range.0, o_range.1, d, ds)
    }
}

impl MapRange<u64> for isize {
    fn map_range(self, range: (isize, isize), o_range: (u64, u64)) -> Option<u64> {
        if self < range.0 || self > range.1 {
            return None;
        }
        if o_range.1 < o_range.0 {
            return None;
        }
        Some(self.map_range_unchecked(range, o_range))
    }

    fn map_range_unchecked(self, range: (isize, isize), o_range: (u64, u64)) -> u64 {
        if range.0 == range.1 {
            return o_range.0;
        }
        let d: u128 = adiff_isize(self, range.0);
        let ds: u128 = adiff_isize(range.1, range.0);
        place_u64(o_range.0, o_range.1, d, ds)
    }
}

impl MapRange<usize> for isize {
    fn map_range(self, range: (isize, isize), o_range: (usize, usize)) -> Option<usize> {
        if self < range.0 || self > range.1 {
            return None;
        }
        if o_range.1 < o_range.0 {
            return None;
        }
        Some(self.map_range_unchecked(range, o_range))
    }

    fn map_range_unchecked(self, range: (isize, isize), o_range: (usize, usize)) -> usize {
        if range.0 == range.1 {
            return o_range.0;
        }
        let d: u128 = adiff_isize(self, range.0);
        let ds: u128 = adiff_isize(range.1, range.0);
        place_usize(o_range.0, o_range.1, d, ds)
    }
}

} // verus!
