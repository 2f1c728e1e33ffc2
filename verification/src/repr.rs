//! A common specification-level view of the supported integer types: each
//! one is seen as a mathematical integer, with its representable range.

use vstd::prelude::*;

verus! {

/// An integer type viewed as a mathematical integer. The contracts of
/// [`crate::MapRange`] and [`crate::RangeOp`] are stated through this view.
pub trait IntRepr: Sized + Copy {
    /// The mathematical value of `self`.
    spec fn as_int(self) -> int;

    /// The smallest representable value.
    spec fn min_spec() -> int;

    /// The largest representable value.
    spec fn max_spec() -> int;
}

impl IntRepr for u8 {
    open spec fn as_int(self) -> int {
        self as int
    }

    open spec fn min_spec() -> int {
        0
    }

    open spec fn max_spec() -> int {
        0xff
    }
}

impl IntRepr for u16 {
    open spec fn as_int(self) -> int {
        self as int
    }

    open spec fn min_spec() -> int {
        0
    }

    open spec fn max_spec() -> int {
        0xffff
    }
}

impl IntRepr for u32 {
    open spec fn as_int(self) -> int {
        self as int
    }

    open spec fn min_spec() -> int {
        0
    }

    open spec fn max_spec() -> int {
        0xffff_ffff
    }
}

impl IntRepr for u64 {
    open spec fn as_int(self) -> int {
        self as int
    }

    open spec fn min_spec() -> int {
        0
    }

    open spec fn max_spec() -> int {
        0xffff_ffff_ffff_ffff
    }
}

impl IntRepr for usize {
    open spec fn as_int(self) -> int {
        self as int
    }

    open spec fn min_spec() -> int {
        0
    }

    open spec fn max_spec() -> int {
        usize::MAX as int
    }
}

impl IntRepr for i8 {
    open spec fn as_int(self) -> int {
        self as int
    }

    open spec fn min_spec() -> int {
        -0x80
    }

    open spec fn max_spec() -> int {
        0x7f
    }
}

impl IntRepr for i16 {
    open spec fn as_int(self) -> int {
        self as int
    }

    open spec fn min_spec() -> int {
        -0x8000
    }

    open spec fn max_spec() -> int {
        0x7fff
    }
}

impl IntRepr for i32 {
    open spec fn as_int(self) -> int {
        self as int
    }

    open spec fn min_spec() -> int {
        -0x8000_0000
    }

    open spec fn max_spec() -> int {
        0x7fff_ffff
    }
}

impl IntRepr for i64 {
    open spec fn as_int(self) -> int {
        self as int
    }

    open spec fn min_spec() -> int {
        -0x8000_0000_0000_0000
    }

    open spec fn max_spec() -> int {
        0x7fff_ffff_ffff_ffff
    }
}

impl IntRepr for isize {
    open spec fn as_int(self) -> int {
        self as int
    }

    open spec fn min_spec() -> int {
        isize::MIN as int
    }

    open spec fn max_spec() -> int {
        isize::MAX as int
    }
}

} // verus!
