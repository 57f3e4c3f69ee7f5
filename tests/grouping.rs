use delfiles::grouping::thousand_separated;

#[test]
fn zero_is_a_single_digit() {
    assert_eq!(thousand_separated(0), "0");
}

#[test]
fn three_digits_need_no_separator() {
    assert_eq!(thousand_separated(999), "999");
    assert_eq!(thousand_separated(100), "100");
    assert_eq!(thousand_separated(7), "7");
}

#[test]
fn ten_thousand() {
    assert_eq!(thousand_separated(10000), "10,000".to_string());
}

#[test]
fn ten_million() {
    assert_eq!(thousand_separated(10000000), "10,000,000".to_string());
}

#[test]
fn inner_groups_keep_leading_zeros() {
    assert_eq!(thousand_separated(1000), "1,000");
    assert_eq!(thousand_separated(1001), "1,001");
    assert_eq!(thousand_separated(1234567), "1,234,567");
    assert_eq!(thousand_separated(100020003), "100,020,003");
}

#[test]
fn largest_byte_total() {
    assert_eq!(thousand_separated(u64::MAX), "18,446,744,073,709,551,615");
}
