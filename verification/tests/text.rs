use connect5::text::to_decimal;

#[test]
fn single_digits() {
    for n in 0..10u64 {
        assert_eq!(to_decimal(n), n.to_string());
    }
}

#[test]
fn numbers_of_several_digits() {
    assert_eq!(to_decimal(10), "10");
    assert_eq!(to_decimal(54), "54");
    assert_eq!(to_decimal(1009), "1009");
    assert_eq!(to_decimal(4294967296), "4294967296");
    assert_eq!(to_decimal(u64::MAX), "18446744073709551615");
}
