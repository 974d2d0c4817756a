use f1_notifications::text::{decimal_u64, parse_u64, push_i64, push_padded, text_eq};

#[test]
fn decimal_numbers() {
    assert_eq!(decimal_u64(0), "0");
    assert_eq!(decimal_u64(1234567890), "1234567890");
    assert_eq!(decimal_u64(u64::MAX), "18446744073709551615");
    let mut s = String::new();
    push_i64(&mut s, i64::MIN);
    assert_eq!(s, i64::MIN.to_string());
    let mut s = String::new();
    push_i64(&mut s, -5);
    assert_eq!(s, "-5");
}

#[test]
fn parsing_matches_std() {
    for text in ["0", "+12", "18446744073709551615", "18446744073709551616", "", "+", "-1", "1a", " 1", "007", "99999999999999999999x"] {
        assert_eq!(parse_u64(text), text.parse::<u64>().ok(), "{text}");
    }
}

#[test]
fn decimal_round_trip() {
    for n in [0u64, 9, 10, 4096, 17_000_000_000_000_000_000, u64::MAX] {
        assert_eq!(parse_u64(&decimal_u64(n)), Some(n));
    }
}

#[test]
fn padding_counts_characters() {
    let mut s = String::new();
    push_padded(&mut s, "FP1", 10);
    assert_eq!(s, format!("{:>10}", "FP1"));
    let mut s = String::new();
    push_padded(&mut s, "Qualifé", 10);
    assert_eq!(s, format!("{:>10}", "Qualifé"));
    let mut s = String::new();
    push_padded(&mut s, "Sprint Qualifying", 10);
    assert_eq!(s, "Sprint Qualifying");
}

#[test]
fn text_equality() {
    assert!(text_eq("abc", "abc"));
    assert!(!text_eq("abc", "abd"));
    assert!(!text_eq("ab", "abc"));
    assert!(text_eq("", ""));
}
