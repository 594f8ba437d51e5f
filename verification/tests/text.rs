use blog_api::text::{decimal_string, normalize_email};

#[test]
fn decimal_string_agrees_with_the_standard_rendering() {
    for n in [0u64, 1, 5, 9, 10, 11, 19, 20, 99, 100, 101, 123, 1000, 65535, 4294967296, u64::MAX - 1, u64::MAX] {
        assert_eq!(decimal_string(n), n.to_string());
    }
}

#[test]
fn decimal_string_of_zero_is_one_digit() {
    assert_eq!(decimal_string(0), "0");
}

#[test]
fn decimal_string_of_the_largest_identifier() {
    assert_eq!(decimal_string(u64::MAX), "18446744073709551615");
}

#[test]
fn decimal_strings_of_different_numbers_differ() {
    let mut seen = std::collections::HashSet::new();
    for n in 0u64..2000 {
        assert!(seen.insert(decimal_string(n)));
    }
}

#[test]
fn normalize_email_lowercases() {
    assert_eq!(normalize_email("Alice@Example.com"), "alice@example.com");
    assert_eq!(normalize_email("ALICE@EXAMPLE.COM"), "alice@example.com");
    assert_eq!(normalize_email("alice@example.com"), "alice@example.com");
}

#[test]
fn normalize_email_lowercases_beyond_ascii() {
    assert_eq!(normalize_email("ÄÖÜ@Example.COM"), "äöü@example.com");
}
