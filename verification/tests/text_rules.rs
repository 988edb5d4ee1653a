use grin_gui::localization::resolve_localized;
use grin_gui::text::{
    count_words, decimal_string, find_from, is_whitespace, push_signed_decimal, replace_spaces,
    str_equals,
};

#[test]
fn decimal_of_zero_and_large_numbers() {
    assert_eq!(decimal_string(0), "0");
    assert_eq!(decimal_string(7), "7");
    assert_eq!(decimal_string(10), "10");
    assert_eq!(decimal_string(1234567890), "1234567890");
    assert_eq!(decimal_string(u64::MAX), "18446744073709551615");
}

#[test]
fn signed_decimal_includes_minus() {
    let mut s = String::from("t=");
    push_signed_decimal(&mut s, -42);
    assert_eq!(s, "t=-42");
    let mut m = String::new();
    push_signed_decimal(&mut m, i64::MIN);
    assert_eq!(m, "-9223372036854775808");
    let mut p = String::new();
    push_signed_decimal(&mut p, 5);
    assert_eq!(p, "5");
}

#[test]
fn string_equality_is_characterwise() {
    assert!(str_equals("tx_id", "tx_id"));
    assert!(!str_equals("tx_id", "tx_ids"));
    assert!(!str_equals("tx_id", "tx-id"));
    assert!(str_equals("", ""));
    assert!(str_equals("äöü", "äöü"));
}

#[test]
fn words_are_counted_like_split_whitespace() {
    assert_eq!(count_words(""), 0);
    assert_eq!(count_words("   "), 0);
    assert_eq!(count_words("one"), 1);
    assert_eq!(count_words("  one two\tthree\n"), 3);
    assert_eq!(count_words("a\u{3000}b\u{a0}c"), 3);
    let phrase = "a b c d e f g h i j k l";
    assert_eq!(count_words(phrase), phrase.split_whitespace().count());
}

#[test]
fn whitespace_matches_std() {
    for c in ['\t', '\n', ' ', '\u{85}', '\u{a0}', '\u{2003}', '\u{3000}', 'a', '_', '\u{200b}'] {
        assert_eq!(is_whitespace(c), c.is_whitespace());
    }
}

#[test]
fn spaces_become_underscores() {
    assert_eq!(replace_spaces("default 1"), "default_1");
    assert_eq!(replace_spaces("a  b"), "a__b");
    assert_eq!(replace_spaces("none"), "none");
}

#[test]
fn pattern_search_finds_first_occurrence() {
    assert_eq!(find_from("ab[AMOUNT]cd[AMOUNT]", "[AMOUNT]", 0), Some(2));
    assert_eq!(find_from("ab[AMOUNT]cd[AMOUNT]", "[AMOUNT]", 3), Some(12));
    assert_eq!(find_from("abc", "[AMOUNT]", 0), None);
    assert_eq!(find_from("abc", "c", 5), None);
}

#[test]
fn missing_or_empty_translation_falls_back_to_key() {
    assert_eq!(resolve_localized("tx_fee", None), "tx_fee");
    assert_eq!(resolve_localized("tx_fee", Some(String::new())), "tx_fee");
    assert_eq!(resolve_localized("tx_fee", Some("Gebühr".to_string())), "Gebühr");
}
