use map_range_int::MapRange;

#[test]
fn test_oob() {
    let x = 26u8;
    let x2: u8 = x.map_range_unchecked((0, 25), (0, 250));
    println!("{} -> {}", x, x2);
    assert_eq!(x2, 4u8);
}

#[test]
fn test_oob5() {
    let x = 29i8;
    let x2: i8 = x.map_range_unchecked((0, 25), (-100, 100));
    println!("{} -> {}", x, x2);
    assert_eq!(x2, -124i8);
}
