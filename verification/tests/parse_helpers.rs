use media_staging::parse::{parse_int_in_range, split_str, str_eq, str_starts_with};

fn chars(s: &str) -> Vec<char> {
    s.chars().collect()
}

#[test]
fn parse_plain_and_signed_numbers() {
    assert_eq!(parse_int_in_range(&chars("2032"), 0, 1 << 40, 1), 2032);
    assert_eq!(parse_int_in_range(&chars("+80"), 0, 255, 9), 80);
    assert_eq!(
        parse_int_in_range(&chars("-2142501224"), i64::MIN as i128, i64::MAX as i128, 0),
        -2142501224
    );
    assert_eq!(parse_int_in_range(&chars("0"), 0, 10, 5), 0);
}

#[test]
fn parse_rejects_malformed_text() {
    assert_eq!(parse_int_in_range(&chars(""), 0, 100, 42), 42);
    assert_eq!(parse_int_in_range(&chars("-"), -100, 100, 42), 42);
    assert_eq!(parse_int_in_range(&chars("+"), -100, 100, 42), 42);
    assert_eq!(parse_int_in_range(&chars("12a"), 0, 1000, 42), 42);
    assert_eq!(parse_int_in_range(&chars(" 12"), 0, 1000, 42), 42);
    assert_eq!(parse_int_in_range(&chars("1.5"), 0, 1000, 42), 42);
}

#[test]
fn parse_applies_the_range() {
    assert_eq!(parse_int_in_range(&chars("300"), 0, 255, 9), 9);
    assert_eq!(parse_int_in_range(&chars("-1"), 0, 255, 9), 9);
    assert_eq!(parse_int_in_range(&chars("255"), 0, 255, 9), 255);
}

#[test]
fn parse_handles_values_beyond_sixty_four_bits() {
    let max = u64::MAX as i128;
    assert_eq!(
        parse_int_in_range(&chars("18446744073709551615"), 0, max, 7),
        max
    );
    assert_eq!(parse_int_in_range(&chars("18446744073709551616"), 0, max, 7), 7);
    assert_eq!(
        parse_int_in_range(&chars("99999999999999999999999999"), 0, max, 7),
        7
    );
    assert_eq!(
        parse_int_in_range(&chars("-99999999999999999999999999"), -max, max, 7),
        7
    );
}

#[test]
fn split_keeps_empty_segments() {
    let segs = split_str("a|bc||d|", '|');
    let segs: Vec<String> = segs.into_iter().map(|v| v.into_iter().collect()).collect();
    assert_eq!(segs, vec!["a", "bc", "", "d", ""]);
}

#[test]
fn split_of_text_without_separator_is_one_segment() {
    let segs = split_str("abc", '|');
    assert_eq!(segs.len(), 1);
    let s: String = segs[0].iter().collect();
    assert_eq!(s, "abc");
}

#[test]
fn string_helpers_compare_exactly() {
    assert!(str_eq("video", "video"));
    assert!(!str_eq("video", "audio"));
    assert!(!str_eq("video", "vide"));
    assert!(str_starts_with("Clipboard_Management|1|2", "Clipboard_Management"));
    assert!(str_starts_with("abc", ""));
    assert!(!str_starts_with("Clip", "Clipboard_Management"));
}
