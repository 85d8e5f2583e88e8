use xberg::text::decimal_string;

#[test]
fn decimal_string_writes_base_ten_digits() {
    assert_eq!(decimal_string(0), "0");
    assert_eq!(decimal_string(7), "7");
    assert_eq!(decimal_string(10), "10");
    assert_eq!(decimal_string(1099), "1099");
    assert_eq!(decimal_string(u64::MAX), u64::MAX.to_string());
}
