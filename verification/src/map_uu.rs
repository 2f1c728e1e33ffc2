//! Mapping between unsigned source and unsigned target types.

use crate::arith::place_u16;
use crate::arith::place_u32;
use crate::arith::place_u64;
use crate::arith::place_u8;
use crate::arith::place_usize;
use crate::arith::wdiff_u16;
use crate::arith::wdiff_u32;
use crate::arith::wdiff_u64;
use crate::arith::wdiff_u8;
use crate::arith::wdiff_usize;
use crate::traits::MapRange;
use vstd::prelude::*;

verus! {

impl MapRange<u8> for u8 {
    fn map_range(self, range: (u8, u8), o_range: (u8, u8)) -> Option<u8> {
        if self < range.0 || self > range.1 {
            return None;
        }
        if o_range.1 < o_range.0 {
            return None;
        }
        Some(self.map_range_unchecked(range, o_range))
    }

    fn map_range_unchecked(self, range: (u8, u8), o_range: (u8, u8)) -> u8 {
        if range.0 == range.1 {
            return o_range.0;
        }
        let d: u128 = wdiff_u8(self, range.0);
        let ds: u128 = wdiff_u8(range.1, range.0);
        place_u8(o_range.0, o_range.1, d, ds)
    }
}

impl MapRange<u16> for u8 {
    fn map_range(self, range: (u8, u8), o_range: (u16, u16)) -> Option<u16> {
        if self < range.0 || self > range.1 {
            return None;
        }
        if o_range.1 < o_range.0 {
            return None;
        }
        Some(self.map_range_unchecked(range, o_range))
    }

    fn map_range_unchecked(self, range: (u8, u8), o_range: (u16, u16)) -> u16 {
        if range.0 == range.1 {
            return o_range.0;
        }
        let d: u128 = wdiff_u8(self, range.0);
        let ds: u128 = wdiff_u8(range.1, range.0);
        place_u16(o_range.0, o_range.1, d, ds)
    }
}

impl MapRange<u32> for u8 {
    fn map_range(self, range: (u8, u8), o_range: (u32, u32)) -> Option<u32> {
        if self < range.0 || self > range.1 {
            return None;
        }
        if o_range.1 < o_range.0 {
            return None;
        }
        Some(self.map_range_unchecked(range, o_range))
    }

    fn map_range_unchecked(self, range: (u8, u8), o_range: (u32, u32)) -> u32 {
        if range.0 == range.1 {
            return o_range.0;
        }
        let d: u128 = wdiff_u8(self, range.0);
        let ds: u128 = wdiff_u8(range.1, range.0);
        place_u32(o_range.0, o_range.1, d, ds)
    }
}

impl MapRange<u64> for u8 {
    fn map_range(self, range: (u8, u8), o_range: (u64, u64)) -> Option<u64> {
        if self < range.0 || self > range.1 {
            return None;
        }
        if o_range.1 < o_range.0 {
            return None;
        }
        Some(self.map_range_unchecked(range, o_range))
    }

    fn map_range_unchecked(self, range: (u8, u8), o_range: (u64, u64)) -> u64 {
        if range.0 == range.1 {
            return o_range.0;
        }
        let d: u128 = wdiff_u8(self, range.0);
        let ds: u128 = wdiff_u8(range.1, range.0);
        place_u64(o_range.0, o_range.1, d, ds)
    }
}

impl MapRange<usize> for u8 {
    fn map_range(self, range: (u8, u8), o_range: (usize, usize)) -> Option<usize> {
        if self < range.0 || self > range.1 {
            return None;
        }
        if o_range.1 < o_range.0 {
            return None;
        }
        Some(self.map_range_unchecked(range, o_range))
    }

    fn map_range_unchecked(self, range: (u8, u8), o_range: (usize, usize)) -> usize {
        if range.0 == range.1 {
            return o_range.0;
        }
        let d: u128 = wdiff_u8(self, range.0);
        let ds: u128 = wdiff_u8(range.1, range.0);
        place_usize(o_range.0, o_range.1, d, ds)
    }
}

impl MapRange<u8> for u16 {
    fn map_range(self, range: (u16, u16), o_range: (u8, u8)) -> Option<u8> {
        if self < range.0 || self > range.1 {
            return None;
        }
        if o_range.1 < o_range.0 {
            return None;
        }
        Some(self.map_range_unchecked(range, o_range))
    }

    fn map_range_unchecked(self, range: (u16, u16), o_range: (u8, u8)) -> u8 {
        if range.0 == range.1 {
            return o_range.0;
        }
        let d: u128 = wdiff_u16(self, range.0);
        let ds: u128 = wdiff_u16(range.1, range.0);
        place_u8(o_range.0, o_range.1, d, ds)
    }
}

impl MapRange<u16> for u16 {
    fn map_range(self, range: (u16, u16), o_range: (u16, u16)) -> Option<u16> {
        if self < range.0 || self > range.1 {
            return None;
        }
        if o_range.1 < o_range.0 {
            return None;
        }
        Some(self.map_range_unchecked(range, o_range))
    }

    fn map_range_unchecked(self, range: (u16, u16), o_range: (u16, u16)) -> u16 {
        if range.0 == range.1 {
            return o_range.0;
        }
        let d: u128 = wdiff_u16(self, range.0);
        let ds: u128 = wdiff_u16(range.1, range.0);
        place_u16(o_range.0, o_range.1, d, ds)
    }
}

impl MapRange<u32> for u16 {
    fn map_range(self, range: (u16, u16), o_range: (u32, u32)) -> Option<u32> {
        if self < range.0 || self > range.1 {
            return None;
        }
        if o_range.1 < o_range.0 {
            return None;
        }
        Some(self.map_range_unchecked(range, o_range))
    }

    fn map_range_unchecked(self, range: (u16, u16), o_range: (u32, u32)) -> u32 {
        if range.0 == range.1 {
            return o_range.0;
        }
        let d: u128 = wdiff_u16(self, range.0);
        let ds: u128 = wdiff_u16(range.1, range.0);
        place_u32(o_range.0, o_range.1, d, ds)
    }
}

impl MapRange<u64> for u16 {
    fn map_range(self, range: (u16, u16), o_range: (u64, u64)) -> Option<u64> {
        if self < range.0 || self > range.1 {
            return None;
        }
        if o_range.1 < o_range.0 {
            return None;
        }
        Some(self.map_range_unchecked(range, o_range))
    }

    fn map_range_unchecked(self, range: (u16, u16), o_range: (u64, u64)) -> u64 {
        if range.0 == range.1 {
            return o_range.0;
        }
        let d: u128 = wdiff_u16(self, range.0);
        let ds: u128 = wdiff_u16(range.1, range.0);
        place_u64(o_range.0, o_range.1, d, ds)
    }
}

impl MapRange<usize> for u16 {
    fn map_range(self, range: (u16, u16), o_range: (usize, usize)) -> Option<usize> {
        if self < range.0 || self > range.1 {
            return None;
        }
        if o_range.1 < o_range.0 {
            return None;
        }
        Some(self.map_range_unchecked(range, o_range))
    }

    fn map_range_unchecked(self, range: (u16, u16), o_range: (usize, usize)) -> usize {
        if range.0 == range.1 {
            return o_range.0;
        }
        let d: u128 = wdiff_u16(self, range.0);
        let ds: u128 = wdiff_u16(range.1, range.0);
        place_usize(o_range.0, o_range.1, d, ds)
    }
}

impl MapRange<u8> for u32 {
    fn map_range(self, range: (u32, u32), o_range: (u8, u8)) -> Option<u8> {
        if self < range.0 || self > range.1 {
            return None;
        }
        if o_range.1 < o_range.0 {
            return None;
        }
        Some(self.map_range_unchecked(range, o_range))
    }

    fn map_range_unchecked(self, range: (u32, u32), o_range: (u8, u8)) -> u8 {
        if range.0 == range.1 {
            return o_range.0;
        }
        let d: u128 = wdiff_u32(self, range.0);
        let ds: u128 = wdiff_u32(range.1, range.0);
        place_u8(o_range.0, o_range.1, d, ds)
    }
}

impl MapRange<u16> for u32 {
    fn map_range(self, range: (u32, u32), o_range: (u16, u16)) -> Option<u16> {
        if self < range.0 || self > range.1 {
            return None;
        }
        if o_range.1 < o_range.0 {
            return None;
        }
        Some(self.map_range_unchecked(range, o_range))
    }

    fn map_range_unchecked(self, range: (u32, u32), o_range: (u16, u16)) -> u16 {
        if range.0 == range.1 {
            return o_range.0;
        }
        let d: u128 = wdiff_u32(self, range.0);
        let ds: u128 = wdiff_u32(range.1, range.0);
        place_u16(o_range.0, o_range.1, d, ds)
    }
}

impl MapRange<u32> for u32 {
    fn map_range(self, range: (u32, u32), o_range: (u32, u32)) -> Option<u32> {
        if self < range.0 || self > range.1 {
            return None;
        }
        if o_range.1 < o_range.0 {
            return None;
        }
        Some(self.map_range_unchecked(range, o_range))
    }

    fn map_range_unchecked(self, range: (u32, u32), o_range: (u32, u32)) -> u32 {
        if range.0 == range.1 {
            return o_range.0;
        }
        let d: u128 = wdiff_u32(self, range.0);
        let ds: u128 = wdiff_u32(range.1, range.0);
        place_u32(o_range.0, o_range.1, d, ds)
    }
}

impl MapRange<u64> for u32 {
    fn map_range(self, range: (u32, u32), o_range: (u64, u64)) -> Option<u64> {
        if self < range.0 || self > range.1 {
            return None;
        }
        if o_range.1 < o_range.0 {
            return None;
        }
        Some(self.map_range_unchecked(range, o_range))
    }

    fn map_range_unchecked(self, range: (u32, u32), o_range: (u64, u64)) -> u64 {
        if range.0 == range.1 {
            return o_range.0;
        }
        let d: u128 = wdiff_u32(self, range.0);
        let ds: u128 = wdiff_u32(range.1, range.0);
        place_u64(o_range.0, o_range.1, d, ds)
    }
}

impl MapRange<usize> for u32 {
    fn map_range(self, range: (u32, u32), o_range: (usize, usize)) -> Option<usize> {
        if self < range.0 || self > range.1 {
            return None;
        }
        if o_range.1 < o_range.0 {
            return None;
        }
        Some(self.map_range_unchecked(range, o_range))
    }

    fn map_range_unchecked(self, range: (u32, u32), o_range: (usize, usize)) -> usize {
        if range.0 == range.1 {
            return o_range.0;
        }
        let d: u128 = wdiff_u32(self, range.0);
        let ds: u128 = wdiff_u32(range.1, range.0);
        place_usize(o_range.0, o_range.1, d, ds)
    }
}

impl MapRange<u8> for u64 {
    fn map_range(self, range: (u64, u64), o_range: (u8, u8)) -> Option<u8> {
        if self < range.0 || self > range.1 {
            return None;
        }
        if o_range.1 < o_range.0 {
            return None;
        }
        Some(self.map_range_unchecked(range, o_range))
    }

    fn map_range_unchecked(self, range: (u64, u64), o_range: (u8, u8)) -> u8 {
        if range.0 == range.1 {
            return o_range.0;
        }
        let d: u128 = wdiff_u64(self, range.0);
        let ds: u128 = wdiff_u64(range.1, range.0);
        place_u8(o_range.0, o_range.1, d, ds)
    }
}

impl MapRange<u16> for u64 {
    fn map_range(self, range: (u64, u64), o_range: (u16, u16)) -> Option<u16> {
        if self < range.0 || self > range.1 {
            return None;
        }
        if o_range.1 < o_range.0 {
            return None;
        }
        Some(self.map_range_unchecked(range, o_range))
    }

    fn map_range_unchecked(self, range: (u64, u64), o_range: (u16, u16)) -> u16 {
        if range.0 == range.1 {
            return o_range.0;
        }
        let d: u128 = wdiff_u64(self, range.0);
        let ds: u128 = wdiff_u64(range.1, range.0);
        place_u16(o_range.0, o_range.1, d, ds)
    }
}

impl MapRange<u32> for u64 {
    fn map_range(self, range: (u64, u64), o_range: (u32, u32)) -> Option<u32> {
        if self < range.0 || self > range.1 {
            return None;
        }
        if o_range.1 < o_range.0 {
            return None;
        }
        Some(self.map_range_unchecked(range, o_range))
    }

    fn map_range_unchecked(self, range: (u64, u64), o_range: (u32, u32)) -> u32 {
        if range.0 == range.1 {
            return o_range.0;
        }
        let d: u128 = wdiff_u64(self, range.0);
        let ds: u128 = wdiff_u64(range.1, range.0);
        place_u32(o_range.0, o_range.1, d, ds)
    }
}

impl MapRange<u64> for u64 {
    fn map_range(self, range: (u64, u64), o_range: (u64, u64)) -> Option<u64> {
        if self < range.0 || self > range.1 {
            return None;
        }
        if o_range.1 < o_range.0 {
            return None;
        }
        Some(self.map_range_unchecked(range, o_range))
    }

    fn map_range_unchecked(self, range: (u64, u64), o_range: (u64, u64)) -> u64 {
        if range.0 == range.1 {
            return o_range.0;
        }
        let d: u128 = wdiff_u64(self, range.0);
        let ds: u128 = wdiff_u64(range.1, range.0);
        place_u64(o_range.0, o_range.1, d, ds)
    }
}

impl MapRange<usize> for u64 {
    fn map_range(self, range: (u64, u64), o_range: (usize, usize)) -> Option<usize> {
        if self < range.0 || self > range.1 {
            return None;
        }
        if o_range.1 < o_range.0 {
            return None;
        }
        Some(self.map_range_unchecked(range, o_range))
    }

    fn map_range_unchecked(self, range: (u64, u64), o_range: (usize, usize)) -> usize {
        if range.0 == range.1 {
            return o_range.0;
        }
        let d: u128 = wdiff_u64(self, range.0);
        let ds: u128 = wdiff_u64(range.1, range.0);
        place_usize(o_range.0, o_range.1, d, ds)
    }
}

impl MapRange<u8> for usize {
    fn map_range(self, range: (usize, usize), o_range: (u8, u8)) -> Option<u8> {
        if self < range.0 || self > range.1 {
            return None;
        }
        if o_range.1 < o_range.0 {
            return None;
        }
        Some(self.map_range_unchecked(range, o_range))
    }

    fn map_range_unchecked(self, range: (usize, usize), o_range: (u8, u8)) -> u8 {
        if range.0 == range.1 {
            return o_range.0;
        }
        let d: u128 = wdiff_usize(self, range.0);
        let ds: u128 = wdiff_usize(range.1, range.0);
        place_u8(o_range.0, o_range.1, d, ds)
    }
}

impl MapRange<u16> for usize {
    fn map_range(self, range: (usize, usize), o_range: (u16, u16)) -> Option<u16> {
        if self < range.0 || self > range.1 {
            return None;
        }
        if o_range.1 < o_range.0 {
            return None;
        }
        Some(self.map_range_unchecked(range, o_range))
    }

    fn map_range_unchecked(self, range: (usize, usize), o_range: (u16, u16)) -> u16 {
        if range.0 == range.1 {
            return o_range.0;
        }
        let d: u128 = wdiff_usize(self, range.0);
        let ds: u128 = wdiff_usize(range.1, range.0);
        place_u16(o_range.0, o_range.1, d, ds)
    }
}

impl MapRange<u32> for usize {
    fn map_range(self, range: (usize, usize), o_range: (u32, u32)) -> Option<u32> {
        if self < range.0 || self > range.1 {
            return None;
        }
        if o_range.1 < o_range.0 {
            return None;
        }
        Some(self.map_range_unchecked(range, o_range))
    }

    fn map_range_unchecked(self, range: (usize, usize), o_range: (u32, u32)) -> u32 {
        if range.0 == range.1 {
            return o_range.0;
        }
        let d: u128 = wdiff_usize(self, range.0);
        let ds: u128 = wdiff_usize(range.1, range.0);
        place_u32(o_range.0, o_range.1, d, ds)
    }
}

impl MapRange<u64> for usize {
    fn map_range(self, range: (usize, usize), o_range: (u64, u64)) -> Option<u64> {
        if self < range.0 || self > range.1 {
            return None;
        }
        if o_range.1 < o_range.0 {
            return None;
        }
        Some(self.map_range_unchecked(range, o_range))
    }

    fn map_range_unchecked(self, range: (usize, usize), o_range: (u64, u64)) -> u64 {
        if range.0 == range.1 {
            return o_range.0;
        }
        let d: u128 = wdiff_usize(self, range.0);
        let ds: u128 = wdiff_usize(range.1, range.0);
        place_u64(o_range.0, o_range.1, d, ds)
    }
}

impl MapRange<usize> for usize {
    fn map_range(self, range: (usize, usize), o_range: (usize, usize)) -> Option<usize> {
        if self < range.0 || self > range.1 {
            return None;
        }
        if o_range.1 < o_range.0 {
            return None;
        }
        Some(self.map_range_unchecked(range, o_range))
    }

    fn map_range_unchecked(self, range: (usize, usize), o_range: (usize, usize)) -> usize {
        if range.0 == range.1 {
            return o_range.0;
        }
        let d: u128 = wdiff_usize(self, range.0);
        let ds: u128 = wdiff_usize(range.1, range.0);
        place_usize(o_range.0, o_range.1, d, ds)
    }
}

} // verus!
