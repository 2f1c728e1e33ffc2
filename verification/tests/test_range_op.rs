use map_range_int::RangeOp;

#[test]
fn test_step() {
    let v = 0u8;

    assert_eq!(v.add_clamp(2, (50, 100)), 50);
}
