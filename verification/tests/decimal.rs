use audiobook_tagger::decimal::{i64_to_decimal, u32_to_decimal, u64_to_decimal};

#[test]
fn unsigned_numbers_in_decimal() {
    for n in [0u64, 1, 9, 10, 11, 99, 100, 101, 1000, 60000, 4294967295, 4294967296, u64::MAX] {
        assert_eq!(u64_to_decimal(n), n.to_string());
    }
    assert_eq!(u64_to_decimal(0), "0");
    assert_eq!(u64_to_decimal(105000), "105000");
    assert_eq!(u64_to_decimal(u64::MAX), "18446744073709551615");
    assert_eq!(u32_to_decimal(0), "0");
    assert_eq!(u32_to_decimal(4294967295), "4294967295");
}

#[test]
fn signed_numbers_in_decimal() {
    for i in [0i64, 1, -1, 9, -9, 10, -10, 2147483647, -2147483648, i64::MAX, i64::MIN] {
        assert_eq!(i64_to_decimal(i), i.to_string());
    }
    assert_eq!(i64_to_decimal(-1), "-1");
    assert_eq!(i64_to_decimal(i64::MIN), "-9223372036854775808");
}
