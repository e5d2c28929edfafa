use tankovault_console::component::{decode_component, encode_component};
use tankovault_console::text::{
    contains, is_white_space, or_text, parse_u32, print_i64, print_u64, same, trim,
};

#[test]
fn white_space_is_what_unicode_says_it_is() {
    for c in '\0'..=char::MAX {
        assert_eq!(is_white_space(c), c.is_whitespace(), "{c:?}");
    }
}

#[test]
fn trimming_keeps_what_stands_inside() {
    for s in ["", " ", " a b ", "\u{3000}鐘\u{2003}", "x", "\t\n"] {
        assert_eq!(trim(s), s.trim());
    }
}

#[test]
fn numbers_are_written_in_plain_decimal() {
    for n in [0, 7, 10, 999, u64::MAX] {
        assert_eq!(print_u64(n), n.to_string());
    }
    for n in [0, -1, i64::MIN, i64::MAX] {
        assert_eq!(print_i64(n), n.to_string());
    }
    for s in ["0", "007", "+5", "4294967295", "4294967296", "-1", "", "+", "1.5"] {
        assert_eq!(parse_u32(s), s.parse::<u32>().ok(), "{s}");
    }
}

#[test]
fn a_part_is_found_anywhere() {
    for (hay, needle) in [("", ""), ("abc", ""), ("abc", "bc"), ("abc", "cb"), ("鐘の音", "の"), ("a", "ab")] {
        assert_eq!(contains(hay, needle), hay.contains(needle));
    }
    assert!(same("鐘", "鐘") && !same("鐘", "金"));
    assert_eq!(or_text(None, "b".to_owned()), "b");
    assert_eq!(or_text(Some("a".to_owned()), "b".to_owned()), "a");
}

#[test]
fn bytes_that_are_no_text_are_read_lossily() {
    assert_eq!(decode_component("%FF%41"), "\u{fffd}A");
    assert_eq!(decode_component("%E9%90%98"), "鐘");
    assert_eq!(decode_component(&encode_component("a b/鐘%+")), "a b/鐘%+");
}
