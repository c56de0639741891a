use axum_example::text::{str_eq, u64_to_string};

#[test]
fn decimal_of_small_numbers() {
    assert_eq!(u64_to_string(0), "0");
    assert_eq!(u64_to_string(7), "7");
    assert_eq!(u64_to_string(9), "9");
    assert_eq!(u64_to_string(10), "10");
}

#[test]
fn decimal_of_large_numbers() {
    assert_eq!(u64_to_string(1234), "1234");
    assert_eq!(u64_to_string(9001), "9001");
    assert_eq!(u64_to_string(1234567890), "1234567890");
    assert_eq!(u64_to_string(u64::MAX), "18446744073709551615");
}

#[test]
fn decimal_agrees_with_std() {
    for n in 0..2000u64 {
        assert_eq!(u64_to_string(n), n.to_string());
    }
}

#[test]
fn str_eq_tells_equal_from_unequal() {
    assert!(str_eq("", ""));
    assert!(str_eq("abc", "abc"));
    assert!(!str_eq("abc", "abd"));
    assert!(!str_eq("abc", "ab"));
    assert!(!str_eq("abc", "ABC"));
}
