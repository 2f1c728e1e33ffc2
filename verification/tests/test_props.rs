use map_range_int::MapRange;
use map_range_int::RangeOp;

// Endpoint exactness: both endpoints of a non-degenerate ascending source
// interval land exactly on the target interval's endpoints.

#[test]
fn test_endpoints_exact_uu() {
    assert_eq!(0u64.map_range((0, u64::MAX), (0u8, 255u8)), Some(0u8));
    assert_eq!(u64::MAX.map_range((0, u64::MAX), (0u8, 255u8)), Some(255u8));
    assert_eq!(3u32.map_range((3, 77), (1000u16, 2000u16)), Some(1000u16));
    assert_eq!(77u32.map_range((3, 77), (1000u16, 2000u16)), Some(2000u16));
}

#[test]
fn test_endpoints_exact_signed() {
    assert_eq!(i64::MIN.map_range((i64::MIN, i64::MAX), (-5i8, 9i8)), Some(-5i8));
    assert_eq!(i64::MAX.map_range((i64::MIN, i64::MAX), (-5i8, 9i8)), Some(9i8));
    assert_eq!((-100i16).map_range((-100, 50), (7u32, 900u32)), Some(7u32));
    assert_eq!(50i16.map_range((-100, 50), (7u32, 900u32)), Some(900u32));
    assert_eq!(10u8.map_range((10, 20), (-128i8, 127i8)), Some(-128i8));
    assert_eq!(20u8.map_range((10, 20), (-128i8, 127i8)), Some(127i8));
}

#[test]
fn test_endpoints_exact_size() {
    assert_eq!(4usize.map_range((4, 44), (-7isize, 13isize)), Some(-7isize));
    assert_eq!(44usize.map_range((4, 44), (-7isize, 13isize)), Some(13isize));
    assert_eq!((-3isize).map_range((-3, 5), (2usize, 82usize)), Some(2usize));
    assert_eq!(5isize.map_range((-3, 5), (2usize, 82usize)), Some(82usize));
}

// Domain rejection: a value strictly outside the ascending source interval
// is reported absent, on either side.

#[test]
fn test_domain_rejection() {
    assert_eq!(9u8.map_range((10, 20), (0u8, 100u8)), None);
    assert_eq!(21u8.map_range((10, 20), (0u8, 100u8)), None);
    assert_eq!((-101i16).map_range((-100, 100), (0u8, 100u8)), None);
    assert_eq!(101i16.map_range((-100, 100), (0u8, 100u8)), None);
    assert_eq!(0u64.map_range((1, u64::MAX), (0u8, 1u8)), None);
}

// A descending target interval is rejected by the checked variant.

#[test]
fn test_reversed_target_rejected() {
    assert_eq!(15u8.map_range((10, 20), (200u8, 100u8)), None);
    assert_eq!(15u8.map_range((10, 20), (100i8, -100i8)), None);
    assert_eq!(0i8.map_range((-10, 10), (5u16, 4u16)), None);
    assert_eq!(0i8.map_range((-10, 10), (5i16, -5i16)), None);
}

// Degenerate source: a single-point source interval maps every in-domain
// value (only its own point) to the target's low endpoint, whatever the
// target's high endpoint is.

#[test]
fn test_degenerate_source() {
    assert_eq!(7u8.map_range((7, 7), (3u8, 250u8)), Some(3u8));
    assert_eq!(7u8.map_range((7, 7), (3u8, 3u8)), Some(3u8));
    assert_eq!((-7i32).map_range((-7, -7), (100i16, 101i16)), Some(100i16));
    assert_eq!(7u8.map_range_unchecked((7, 7), (3u8, 250u8)), 3u8);
}

// Degenerate target: every in-domain value lands on the single point.

#[test]
fn test_degenerate_target() {
    for x in 10..=20u8 {
        assert_eq!(x.map_range((10, 20), (42u8, 42u8)), Some(42u8));
        assert_eq!(x.map_range((10, 20), (-42i8, -42i8)), Some(-42i8));
    }
}

// Monotonicity: with ascending source and target intervals, larger
// in-domain values never map below smaller ones.

#[test]
fn test_monotonic_uu() {
    let mut prev: u8 = 0;
    for x in 10..=200u16 {
        let y: u8 = x.map_range((10, 200), (0u8, 255u8)).expect("in_range");
        assert!(prev <= y);
        prev = y;
    }
}

#[test]
fn test_monotonic_iu() {
    let mut prev: u16 = 0;
    for x in -100..=100i8 {
        let y: u16 = x.map_range((-100, 100), (0u16, 1000u16)).expect("in_range");
        assert!(prev <= y);
        prev = y;
    }
}

// Clamped stepping saturates before clamping: no delta can make it panic,
// and the result always lies within ascending bounds.

#[test]
fn test_add_clamp_saturates() {
    assert_eq!(250u8.add_clamp(255, (0, 255)), 255);
    assert_eq!(250u8.add_clamp(255, (10, 200)), 200);
    assert_eq!(i8::MAX.add_clamp(255, (-100, 100)), 100);
    assert_eq!(u64::MAX.add_clamp(u64::MAX, (0, u64::MAX)), u64::MAX);
    assert_eq!(usize::MAX.add_clamp(usize::MAX, (5, 10)), 10);
    assert_eq!(isize::MAX.add_clamp(usize::MAX, (-5, 10)), 10);
    for d in 0..=255u8 {
        let r = 200u8.add_clamp(d, (50, 210));
        assert!(50 <= r && r <= 210);
    }
}

#[test]
fn test_sub_clamp_saturates() {
    assert_eq!(5u8.sub_clamp(255, (10, 200)), 10);
    assert_eq!(i8::MIN.sub_clamp(255, (-100, 100)), -100);
    assert_eq!(100u16.sub_clamp(30, (0, 65535)), 70);
    assert_eq!((-100i64).sub_clamp(u64::MAX, (i64::MIN, 0)), i64::MIN);
    for d in 0..=255u8 {
        let r = 60i8.sub_clamp(d, (-100, 100));
        assert!(-100 <= r && r <= 100);
    }
}

// Exact stepped values where nothing saturates or clamps.

#[test]
fn test_step_exact() {
    assert_eq!(60u8.add_clamp(10, (0, 255)), 70);
    assert_eq!(60u8.sub_clamp(10, (0, 255)), 50);
    assert_eq!((-60i16).add_clamp(10, (-100, 100)), -50);
    assert_eq!((-60i16).sub_clamp(10, (-100, 100)), -70);
}

// Mid-range truncation: the result is the floor of the exact ratio.

#[test]
fn test_truncation_exact_values() {
    // (3 * 10) / 7 = 4 remainder 2: truncates toward the low endpoint.
    assert_eq!(3u8.map_range((0, 7), (0u8, 10u8)), Some(4u8));
    // 100 + (5 * 7) / 9 = 103 remainder 8
    assert_eq!(5u8.map_range((0, 9), (100u8, 107u8)), Some(103u8));
}

// The unchecked variant wraps deterministically out of domain instead of
// panicking (release-mode behaviour of the narrow-type arithmetic).

#[test]
fn test_unchecked_wraps() {
    assert_eq!(30u8.map_range_unchecked((0, 25), (0u8, 250u8)), 44u8);
    assert_eq!(30u8.map_range_unchecked((0, 25), (0i8, 100i8)), 120i8);
}
