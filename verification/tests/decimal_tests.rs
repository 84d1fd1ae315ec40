use fileserve::decimal::u64_to_decimal;

#[test]
fn test_zero() {
    assert_eq!(u64_to_decimal(0), b"0".to_vec());
}

#[test]
fn test_single_digit() {
    assert_eq!(u64_to_decimal(7), b"7".to_vec());
}

#[test]
fn test_round_number() {
    assert_eq!(u64_to_decimal(100), b"100".to_vec());
}

#[test]
fn test_port_number() {
    assert_eq!(u64_to_decimal(8080), b"8080".to_vec());
}

#[test]
fn test_largest_value() {
    assert_eq!(u64_to_decimal(u64::MAX), b"18446744073709551615".to_vec());
}
