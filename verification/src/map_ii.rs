//! Mapping between signed source and signed target types.

use crate::arith::adiff_i16;
use crate::arith::adiff_i32;
use crate::arith::adiff_i64;
use crate::arith::adiff_i8;
use crate::arith::adiff_isize;
use crate::arith::place_i16;
use crate::arith::place_i32;
use crate::arith::place_i64;
use crate::arith::place_i8;
use crate::arith::place_isize;
use crate::traits::MapRange;
use vstd::prelude::*;

verus! {

impl MapRange<i8> for i8 {
    fn map_range(self, range: (i8, i8), o_range: (i8, i8)) -> Option<i8> {
        if self < range.0 || self > range.1 {
            return None;
        }
        if o_range.1 < o_range.0 {
            return None;
        }
        Some(self.map_range_unchecked(range, o_range))
    }

    fn map_range_unchecked(self, range: (i8, i8), o_range: (i8, i8)) -> i8 {
        if range.0 == range.1 {
            return o_range.0;
        }
        let d: u128 = adiff_i8(self, range.0);
        let ds: u128 = adiff_i8(range.1, range.0);
        place_i8(o_range.0, o_range.1, d, ds)
    }
}

impl MapRange<i16> for i8 {
    fn map_range(self, range: (i8, i8), o_range: (i16, i16)) -> Option<i16> {
        if self < range.0 || self > range.1 {
            return None;
        }
        if o_range.1 < o_range.0 {
            return None;
        }
        Some(self.map_range_unchecked(range, o_range))
    }

    fn map_range_unchecked(self, range: (i8, i8), o_range: (i16, i16)) -> i16 {
        if range.0 == range.1 {
            return o_range.0;
        }
        let d: u128 = adiff_i8(self, range.0);
        let ds: u128 = adiff_i8(range.1, range.0);
        place_i16(o_range.0, o_range.1, d, ds)
    }
}

impl MapRange<i32> for i8 {
    fn map_range(self, range: (i8, i8), o_range: (i32, i32)) -> Option<i32> {
        if self < range.0 || self > range.1 {
            return None;
        }
        if o_range.1 < o_range.0 {
            return None;
        }
        Some(self.map_range_unchecked(range, o_range))
    }

    fn map_range_unchecked(self, range: (i8, i8), o_range: (i32, i32)) -> i32 {
        if range.0 == range.1 {
            return o_range.0;
        }
        let d: u128 = adiff_i8(self, range.0);
        let ds: u128 = adiff_i8(range.1, range.0);
        place_i32(o_range.0, o_range.1, d, ds)
    }
}

impl MapRange<i64> for i8 {
    fn map_range(self, range: (i8, i8), o_range: (i64, i64)) -> Option<i64> {
        if self < range.0 || self > range.1 {
            return None;
        }
        if o_range.1 < o_range.0 {
            return None;
        }
        Some(self.map_range_unchecked(range, o_range))
    }

    fn map_range_unchecked(self, range: (i8, i8), o_range: (i64, i64)) -> i64 {
        if range.0 == range.1 {
            return o_range.0;
        }
        let d: u128 = adiff_i8(self, range.0);
        let ds: u128 = adiff_i8(range.1, range.0);
        place_i64(o_range.0, o_range.1, d, ds)
    }
}

impl MapRange<isize> for i8 {
    fn map_range(self, range: (i8, i8), o_range: (isize, isize)) -> Option<isize> {
        if self < range.0 || self > range.1 {
            return None;
        }
        if o_range.1 < o_range.0 {
            return None;
        }
        Some(self.map_range_unchecked(range, o_range))
    }

    fn map_range_unchecked(self, range: (i8, i8), o_range: (isize, isize)) -> isize {
        if range.0 == range.1 {
            return o_range.0;
        }
        let d: u128 = adiff_i8(self, range.0);
        let ds: u128 = adiff_i8(range.1, range.0);
        place_isize(o_range.0, o_range.1, d, ds)
    }
}

impl MapRange<i8> for i16 {
    fn map_range(self, range: (i16, i16), o_range: (i8, i8)) -> Option<i8> {
        if self < range.0 || self > range.1 {
            return None;
        }
        if o_range.1 < o_range.0 {
            return None;
        }
        Some(self.map_range_unchecked(range, o_range))
    }

    fn map_range_unchecked(self, range: (i16, i16), o_range: (i8, i8)) -> i8 {
        if range.0 == range.1 {
            return o_range.0;
        }
        let d: u128 = adiff_i16(self, range.0);
        let ds: u128 = adiff_i16(range.1, range.0);
        place_i8(o_range.0, o_range.1, d, ds)
    }
}

impl MapRange<i16> for i16 {
    fn map_range(self, range: (i16, i16), o_range: (i16, i16)) -> Option<i16> {
        if self < range.0 || self > range.1 {
            return None;
        }
        if o_range.1 < o_range.0 {
            return None;
        }
        Some(self.map_range_unchecked(range, o_range))
    }

    fn map_range_unchecked(self, range: (i16, i16), o_range: (i16, i16)) -> i16 {
        if range.0 == range.1 {
            return o_range.0;
        }
        let d: u128 = adiff_i16(self, range.0);
        let ds: u128 = adiff_i16(range.1, range.0);
        place_i16(o_range.0, o_range.1, d, ds)
    }
}

impl MapRange<i32> for i16 {
    fn map_range(self, range: (i16, i16), o_range: (i32, i32)) -> Option<i32> {
        if self < range.0 || self > range.1 {
            return None;
        }
        if o_range.1 < o_range.0 {
            return None;
        }
        Some(self.map_range_unchecked(range, o_range))
    }

    fn map_range_unchecked(self, range: (i16, i16), o_range: (i32, i32)) -> i32 {
        if range.0 == range.1 {
            return o_range.0;
        }
        let d: u128 = adiff_i16(self, range.0);
        let ds: u128 = adiff_i16(range.1, range.0);
        place_i32(o_range.0, o_range.1, d, ds)
    }
}

impl MapRange<i64> for i16 {
    fn map_range(self, range: (i16, i16), o_range: (i64, i64)) -> Option<i64> {
        if self < range.0 || self > range.1 {
            return None;
        }
        if o_range.1 < o_range.0 {
            return None;
        }
        Some(self.map_range_unchecked(range, o_range))
    }

    fn map_range_unchecked(self, range: (i16, i16), o_range: (i64, i64)) -> i64 {
        if range.0 == range.1 {
            return o_range.0;
        }
        let d: u128 = adiff_i16(self, range.0);
        let ds: u128 = adiff_i16(range.1, range.0);
        place_i64(o_range.0, o_range.1, d, ds)
    }
}

impl MapRange<isize> for i16 {
    fn map_range(self, range: (i16, i16), o_range: (isize, isize)) -> Option<isize> {
        if self < range.0 || self > range.1 {
            return None;
        }
        if o_range.1 < o_range.0 {
            return None;
        }
        Some(self.map_range_unchecked(range, o_range))
    }

    fn map_range_unchecked(self, range: (i16, i16), o_range: (isize, isize)) -> isize {
        if range.0 == range.1 {
            return o_range.0;
        }
        let d: u128 = adiff_i16(self, range.0);
        let ds: u128 = adiff_i16(range.1, range.0);
        place_isize(o_range.0, o_range.1, d, ds)
    }
}

impl MapRange<i8> for i32 {
    fn map_range(self, range: (i32, i32), o_range: (i8, i8)) -> Option<i8> {
        if self < range.0 || self > range.1 {
            return None;
        }
        if o_range.1 < o_range.0 {
            return None;
        }
        Some(self.map_range_unchecked(range, o_range))
    }

    fn map_range_unchecked(self, range: (i32, i32), o_range: (i8, i8)) -> i8 {
        if range.0 == range.1 {
            return o_range.0;
        }
        let d: u128 = adiff_i32(self, range.0);
        let ds: u128 = adiff_i32(range.1, range.0);
        place_i8(o_range.0, o_range.1, d, ds)
    }
}

impl MapRange<i16> for i32 {
    fn map_range(self, range: (i32, i32), o_range: (i16, i16)) -> Option<i16> {
        if self < range.0 || self > range.1 {
            return None;
        }
        if o_range.1 < o_range.0 {
            return None;
        }
        Some(self.map_range_unchecked(range, o_range))
    }

    fn map_range_unchecked(self, range: (i32, i32), o_range: (i16, i16)) -> i16 {
        if range.0 == range.1 {
            return o_range.0;
        }
        let d: u128 = adiff_i32(self, range.0);
        let ds: u128 = adiff_i32(range.1, range.0);
        place_i16(o_range.0, o_range.1, d, ds)
    }
}

impl MapRange<i32> for i32 {
    fn map_range(self, range: (i32, i32), o_range: (i32, i32)) -> Option<i32> {
        if self < range.0 || self > range.1 {
            return None;
        }
        if o_range.1 < o_range.0 {
            return None;
        }
        Some(self.map_range_unchecked(range, o_range))
    }

    fn map_range_unchecked(self, range: (i32, i32), o_range: (i32, i32)) -> i32 {
        if range.0 == range.1 {
            return o_range.0;
        }
        let d: u128 = adiff_i32(self, range.0);
        let ds: u128 = adiff_i32(range.1, range.0);
        place_i32(o_range.0, o_range.1, d, ds)
    }
}

impl MapRange<i64> for i32 {
    fn map_range(self, range: (i32, i32), o_range: (i64, i64)) -> Option<i64> {
        if self < range.0 || self > range.1 {
            return None;
        }
        if o_range.1 < o_range.0 {
            return None;
        }
        Some(self.map_range_unchecked(range, o_range))
    }

    fn map_range_unchecked(self, range: (i32, i32), o_range: (i64, i64)) -> i64 {
        if range.0 == range.1 {
            return o_range.0;
        }
        let d: u128 = adiff_i32(self, range.0);
        let ds: u128 = adiff_i32(range.1, range.0);
        place_i64(o_range.0, o_range.1, d, ds)
    }
}

impl MapRange<isize> for i32 {
    fn map_range(self, range: (i32, i32), o_range: (isize, isize)) -> Option<isize> {
        if self < range.0 || self > range.1 {
            return None;
        }
        if o_range.1 < o_range.0 {
            return None;
        }
        Some(self.map_range_unchecked(range, o_range))
    }

    fn map_range_unchecked(self, range: (i32, i32), o_range: (isize, isize)) -> isize {
        if range.0 == range.1 {
            return o_range.0;
        }
        let d: u128 = adiff_i32(self, range.0);
        let ds: u128 = adiff_i32(range.1, range.0);
        place_isize(o_range.0, o_range.1, d, ds)
    }
}

impl MapRange<i8> for i64 {
    fn map_range(self, range: (i64, i64), o_range: (i8, i8)) -> Option<i8> {
        if self < range.0 || self > range.1 {
            return None;
        }
        if o_range.1 < o_range.0 {
            return None;
        }
        Some(self.map_range_unchecked(range, o_range))
    }

    fn map_range_unchecked(self, range: (i64, i64), o_range: (i8, i8)) -> i8 {
        if range.0 == range.1 {
            return o_range.0;
        }
        let d: u128 = adiff_i64(self, range.0);
        let ds: u128 = adiff_i64(range.1, range.0);
        place_i8(o_range.0, o_range.1, d, ds)
    }
}

impl MapRange<i16> for i64 {
    fn map_range(self, range: (i64, i64), o_range: (i16, i16)) -> Option<i16> {
        if self < range.0 || self > range.1 {
            return None;
        }
        if o_range.1 < o_range.0 {
            return None;
        }
        Some(self.map_range_unchecked(range, o_range))
    }

    fn map_range_unchecked(self, range: (i64, i64), o_range: (i16, i16)) -> i16 {
        if range.0 == range.1 {
            return o_range.0;
        }
        let d: u128 = adiff_i64(self, range.0);
        let ds: u128 = adiff_i64(range.1, range.0);
        place_i16(o_range.0, o_range.1, d, ds)
    }
}

impl MapRange<i32> for i64 {
    fn map_range(self, range: (i64, i64), o_range: (i32, i32)) -> Option<i32> {
        if self < range.0 || self > range.1 {
            return None;
        }
        if o_range.1 < o_range.0 {
            return None;
        }
        Some(self.map_range_unchecked(range, o_range))
    }

    fn map_range_unchecked(self, range: (i64, i64), o_range: (i32, i32)) -> i32 {
        if range.0 == range.1 {
            return o_range.0;
        }
        let d: u128 = adiff_i64(self, range.0);
        let ds: u128 = adiff_i64(range.1, range.0);
        place_i32(o_range.0, o_range.1, d, ds)
    }
}

impl MapRange<i64> for i64 {
    fn map_range(self, range: (i64, i64), o_range: (i64, i64)) -> Option<i64> {
        if self < range.0 || self > range.1 {
            return None;
        }
        if o_range.1 < o_range.0 {
            return None;
        }
        Some(self.map_range_unchecked(range, o_range))
    }

    fn map_range_unchecked(self, range: (i64, i64), o_range: (i64, i64)) -> i64 {
        if range.0 == range.1 {
            return o_range.0;
        }
        let d: u128 = adiff_i64(self, range.0);
        let ds: u128 = adiff_i64(range.1, range.0);
        place_i64(o_range.0, o_range.1, d, ds)
    }
}

impl MapRange<isize> for i64 {
    fn map_range(self, range: (i64, i64), o_range: (isize, isize)) -> Option<isize> {
        if self < range.0 || self > range.1 {
            return None;
        }
        if o_range.1 < o_range.0 {
            return None;
        }
        Some(self.map_range_unchecked(range, o_range))
    }

    fn map_range_unchecked(self, range: (i64, i64), o_range: (isize, isize)) -> isize {
        if range.0 == range.1 {
            return o_range.0;
        }
        let d: u128 = adiff_i64(self, range.0);
        let ds: u128 = adiff_i64(range.1, range.0);
        place_isize(o_range.0, o_range.1, d, ds)
    }
}

impl MapRange<i8> for isize {
    fn map_range(self, range: (isize, isize), o_range: (i8, i8)) -> Option<i8> {
        if self < range.0 || self > range.1 {
            return None;
        }
        if o_range.1 < o_range.0 {
            return None;
        }
        Some(self.map_range_unchecked(range, o_range))
    }

    fn map_range_unchecked(self, range: (isize, isize), o_range: (i8, i8)) -> i8 {
        if range.0 == range.1 {
            return o_range.0;
        }
        let d: u128 = adiff_isize(self, range.0);
        let ds: u128 = adiff_isize(range.1, range.0);
        place_i8(o_range.0, o_range.1, d, ds)
    }
}

impl MapRange<i16> for isize {
    fn map_range(self, range: (isize, isize), o_range: (i16, i16)) -> Option<i16> {
        if self < range.0 || self > range.1 {
            return None;
        }
        if o_range.1 < o_range.0 {
            return None;
        }
        Some(self.map_range_unchecked(range, o_range))
    }

    fn map_range_unchecked(self, range: (isize, isize), o_range: (i16, i16)) -> i16 {
        if range.0 == range.1 {
            return o_range.0;
        }
        let d: u128 = adiff_isize(self, range.0);
        let ds: u128 = adiff_isize(range.1, range.0);
        place_i16(o_range.0, o_range.1, d, ds)
    }
}

impl MapRange<i32> for isize {
    fn map_range(self, range: (isize, isize), o_range: (i32, i32)) -> Option<i32> {
        if self < range.0 || self > range.1 {
            return None;
        }
        if o_range.1 < o_range.0 {
            return None;
        }
        Some(self.map_range_unchecked(range, o_range))
    }

    fn map_range_unchecked(self, range: (isize, isize), o_range: (i32, i32)) -> i32 {
        if range.0 == range.1 {
            return o_range.0;
        }
        let d: u128 = adiff_isize(self, range.0);
        let ds: u128 = adiff_isize(range.1, range.0);
        place_i32(o_range.0, o_range.1, d, ds)
    }
}

impl MapRange<i64> for isize {
    fn map_range(self, range: (isize, isize), o_range: (i64, i64)) -> Option<i64> {
        if self < range.0 || self > range.1 {
            return None;
        }
        if o_range.1 < o_range.0 {
            return None;
        }
        Some(self.map_range_unchecked(range, o_range))
    }

    fn map_range_unchecked(self, range: (isize, isize), o_range: (i64, i64)) -> i64 {
        if range.0 == range.1 {
            return o_range.0;
        }
        let d: u128 = adiff_isize(self, range.0);
        let ds: u128 = adiff_isize(range.1, range.0);
        place_i64(o_range.0, o_range.1, d, ds)
    }
}

impl MapRange<isize> for isize {
    fn map_range(self, range: (isize, isize), o_range: (isize, isize)) -> Option<isize> {
        if self < range.0 || self > range.1 {
            return None;
        }
        if o_range.1 < o_range.0 {
            return None;
        }
        Some(self.map_range_unchecked(range, o_range))
    }

    fn map_range_unchecked(self, range: (isize, isize), o_range: (isize, isize)) -> isize {
        if range.0 == range.1 {
            return o_range.0;
        }
        let d: u128 = adiff_isize(self, range.0);
        let ds: u128 = adiff_isize(range.1, range.0);
        place_isize(o_range.0, o_range.1, d, ds)
    }
}

} // verus!
