use transaction_queue_api::text::{
    chars_of, decimal_text, find_first_in, same_text, signed_decimal_text,
};

#[test]
fn decimal_rendering() {
    assert_eq!(decimal_text(0), "0");
    assert_eq!(decimal_text(7), "7");
    assert_eq!(decimal_text(10), "10");
    assert_eq!(decimal_text(1048576), "1048576");
    assert_eq!(decimal_text(u64::MAX), u64::MAX.to_string());
}

#[test]
fn signed_decimal_rendering() {
    assert_eq!(signed_decimal_text(0), "0");
    assert_eq!(signed_decimal_text(-1000), "-1000");
    assert_eq!(signed_decimal_text(1000), "1000");
    assert_eq!(signed_decimal_text(i64::MIN), i64::MIN.to_string());
    assert_eq!(signed_decimal_text(i64::MAX), i64::MAX.to_string());
}

#[test]
fn text_search() {
    let s = chars_of("abcabc");
    assert_eq!(find_first_in(&s, &chars_of("bc")), Some(1));
    assert_eq!(find_first_in(&s, &chars_of("cb")), None);
    assert_eq!(find_first_in(&s, &chars_of("")), Some(0));
    assert_eq!(find_first_in(&s, &chars_of("abcabcd")), None);
    assert_eq!(chars_of("é_1"), vec!['é', '_', '1']);
}

#[test]
fn text_equality() {
    assert!(same_text("abc", "abc"));
    assert!(!same_text("abc", "abd"));
    assert!(!same_text("abc", "ab"));
    assert!(same_text("", ""));
}
