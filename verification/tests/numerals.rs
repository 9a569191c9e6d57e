use provision::text::contains_substr;
use provision::text::parse_dec;
use provision::text::str_eq;
use provision::text::usize_to_dec;

#[test]
fn renders_canonical_numerals() {
    assert_eq!(usize_to_dec(0), "0");
    assert_eq!(usize_to_dec(7), "7");
    assert_eq!(usize_to_dec(10), "10");
    assert_eq!(usize_to_dec(12345), "12345");
}

#[test]
fn parses_plain_numerals() {
    assert_eq!(parse_dec("0"), Some(0));
    assert_eq!(parse_dec("42"), Some(42));
    assert_eq!(parse_dec("007"), Some(7));
}

#[test]
fn rejects_anything_but_digits() {
    assert_eq!(parse_dec(""), None);
    assert_eq!(parse_dec("+1"), None);
    assert_eq!(parse_dec("-1"), None);
    assert_eq!(parse_dec("1 "), None);
    assert_eq!(parse_dec("x7"), None);
}

#[test]
fn rejects_values_past_the_machine_word() {
    assert_eq!(parse_dec("99999999999999999999999999"), None);
    assert_eq!(parse_dec(&usize::MAX.to_string()), Some(usize::MAX));
}

#[test]
fn numeral_round_trip() {
    for n in [0usize, 1, 9, 10, 99, 100, 65535, 987654321] {
        assert_eq!(parse_dec(&usize_to_dec(n)), Some(n));
    }
}

#[test]
fn substring_search_matches_anywhere() {
    assert!(contains_substr("ata-disk-part1", "part"));
    assert!(contains_substr("partition", "part"));
    assert!(contains_substr("apart", "part"));
    assert!(!contains_substr("pa-rt", "part"));
    assert!(!contains_substr("", "part"));
    assert!(contains_substr("anything", ""));
}

#[test]
fn string_equality_is_exact() {
    assert!(str_eq("--zfs", "--zfs"));
    assert!(!str_eq("--zfs", "--zfs "));
    assert!(!str_eq("", " "));
    assert!(str_eq("", ""));
}
