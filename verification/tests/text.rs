//! Text.

use autospot::text::{
    chars_of, comes_before, eq_ignore_ascii_case, join, parse_hex, same_text, split, starts_with,
    to_decimal, to_lower_char, trim, wide_to_string,
};

fn hex(s: &str, max: u32) -> Option<u32> {
    parse_hex(&chars_of(s), max)
}

#[test]
fn letters_are_lowered_and_nothing_else() {
    assert_eq!(to_lower_char('Q'), 'q');
    assert_eq!(to_lower_char('q'), 'q');
    assert_eq!(to_lower_char('['), '[');
    assert_eq!(to_lower_char('\u{c4}'), '\u{c4}');
}

#[test]
fn texts_compare_with_and_without_case() {
    assert!(same_text("abc", "abc"));
    assert!(!same_text("abc", "abC"));
    assert!(!same_text("abc", "ab"));
    assert!(eq_ignore_ascii_case("Wi-FI", "wi-fi"));
    assert!(!eq_ignore_ascii_case("\u{c4}", "\u{e4}"));
    assert!(!eq_ignore_ascii_case("ab", "abc"));
    assert!(starts_with("192.168.137.1", "192.168.137."));
    assert!(!starts_with("192.168.13", "192.168.137."));
    assert!(starts_with("x", ""));
}

#[test]
fn texts_are_ordered_like_words() {
    assert!(comes_before("a", "i"));
    assert!(comes_before("a", "aa"));
    assert!(!comes_before("aa", "a"));
    assert!(!comes_before("a", "a"));
    assert!(comes_before("", "a"));
    assert!(comes_before("B", "a"));
}

#[test]
fn blanks_of_every_kind_are_trimmed() {
    assert_eq!(trim("  auto  "), "auto");
    assert_eq!(trim("\u{2003}a b\u{a0}\n"), "a b");
    assert_eq!(trim(" \t "), "");
    assert_eq!(trim("\u{200b}x"), "\u{200b}x");
}

#[test]
fn texts_come_apart_and_together() {
    let pieces: Vec<String> = split(&chars_of("a-b--c"), '-')
        .into_iter()
        .map(|p| p.into_iter().collect())
        .collect();
    assert_eq!(pieces, ["a", "b", "", "c"]);
    assert_eq!(split(&[], '-').len(), 1);
    assert_eq!(join(&pieces, ", "), "a, b, , c");
    assert_eq!(join(&Vec::new(), ", "), "");
}

#[test]
fn numbers_are_written_in_decimal() {
    assert_eq!(to_decimal(0), "0");
    assert_eq!(to_decimal(10), "10");
    assert_eq!(to_decimal(u64::MAX), "18446744073709551615");
}

#[test]
fn numbers_are_read_in_hexadecimal() {
    assert_eq!(hex("9D534A4D", u32::MAX), Some(0x9D53_4A4D));
    assert_eq!(hex("ffffffff", u32::MAX), Some(u32::MAX));
    assert_eq!(hex("100000000", u32::MAX), None);
    assert_eq!(hex("feb4", 0xffff), Some(0xfeb4));
    assert_eq!(hex("0000feb4", 0xffff), Some(0xfeb4));
    assert_eq!(hex("10000", 0xffff), None);
    assert_eq!(hex("+f", 0xff), Some(15));
    assert_eq!(hex("+", 0xff), None);
    assert_eq!(hex("++1", 0xff), None);
    assert_eq!(hex("-1", 0xff), None);
    assert_eq!(hex("", 0xff), None);
    assert_eq!(hex("g", 0xff), None);
}

#[test]
fn wide_text_is_read_with_replacement_characters() {
    assert_eq!(wide_to_string(&[0x48, 0x69]), "Hi");
    assert_eq!(wide_to_string(&[0, 0x48]), "");
    // A pair of surrogates is one character; a lone one is none.
    assert_eq!(wide_to_string(&[0xd83d, 0xde00]), "\u{1f600}");
    assert_eq!(wide_to_string(&[0xd83d, 0x41]), "\u{fffd}A");
    assert_eq!(wide_to_string(&[0xde00]), "\u{fffd}");
}
