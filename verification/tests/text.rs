//! Tests of the text operations.

use aviutl2_audio_rec::text::{
    chars_of, decimal_text, join2, padded_decimal_text, same_ignoring_case, same_text,
    strip_prefix, trim, white_space,
};

/// White space is what the standard library takes for it, over all characters.
#[test]
fn white_space_is_unicode_white_space() {
    for c in '\u{0}'..=char::MAX {
        assert_eq!(white_space(c), c.is_whitespace(), "{:x}", c as u32);
    }
}

/// Trimming is what the standard library does.
#[test]
fn trim_takes_both_ends() {
    for text in ["", " ", "a", " a", "a ", "\u{3000} a b \n", "\t\r\n", "録音 ", "\u{200b}x\u{200b}"] {
        assert_eq!(trim(text), text.trim());
    }
    assert_eq!(trim("  stop\r\n"), "stop");
}

/// A prefix is taken off only where it is one.
#[test]
fn prefixes_are_stripped() {
    assert_eq!(strip_prefix("start:a", "start:"), Some("a"));
    assert_eq!(strip_prefix("start:", "start:"), Some(""));
    assert_eq!(strip_prefix("start", "start:"), None);
    assert_eq!(strip_prefix("Start:a", "start:"), None);
    assert_eq!(strip_prefix("録音中", "録"), Some("音中"));
    assert_eq!(strip_prefix("x", ""), Some("x"));
}

/// Texts are the same only when they are equal.
#[test]
fn texts_are_compared() {
    assert!(same_text("stop", "stop"));
    assert!(!same_text("stop", "stopp"));
    assert!(!same_text("stopp", "stop"));
    assert!(same_text("", ""));
}

/// Only ASCII letters lose their case.
#[test]
fn case_is_ignored_for_ascii() {
    assert!(same_ignoring_case("WAV", "wav"));
    assert!(same_ignoring_case("wAv", "wav"));
    assert!(!same_ignoring_case("wave", "wav"));
    assert!(!same_ignoring_case("wa", "wav"));
    assert!(!same_ignoring_case("ｗａｖ", "wav"));
    assert!(!same_ignoring_case("[av", "{av"));
}

/// Numbers in decimal.
#[test]
fn numbers_are_written_in_decimal() {
    for n in [0u64, 7, 9, 10, 99, 100, 65_536, 4_294_967_295, u64::MAX] {
        assert_eq!(decimal_text(n), n.to_string());
    }
    assert_eq!(padded_decimal_text(7, 2), "07");
    assert_eq!(padded_decimal_text(7, 4), "0007");
    assert_eq!(padded_decimal_text(12_345, 4), "12345");
    assert_eq!(padded_decimal_text(5, 0), "5");
}

/// Characters and joining.
#[test]
fn characters_and_joining() {
    assert_eq!(chars_of("a録"), vec!['a', '録']);
    assert_eq!(join2("err:", "x"), "err:x");
}
