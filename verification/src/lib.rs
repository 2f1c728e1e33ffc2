//! Exact linear remapping of a value from one closed interval to another,
//! over fixed-width integer types, together with a clamped, saturating
//! stepping operation.
//!
//! The mapping is computed in a widened calculation type so that the
//! intermediate product never overflows, interval endpoints are preserved
//! exactly, and mid-range values incur at most one unit of truncation error.

pub mod arith;
pub mod laws;
pub mod map_ii;
pub mod map_iu;
pub mod map_ui;
pub mod map_uu;
pub mod model;
pub mod range_op;
pub mod repr;
pub mod traits;

pub use range_op::RangeOp;
pub use repr::IntRepr;
pub use traits::MapRange;
