//! Tests of the validation rules shared by names and descriptions.

use personal_ledger_server::domain::things::text::{
    validate, validate_counted, contains_forbidden, is_blank_text, is_forbidden_char,
    is_white_space_char, MAX_GRAPHEMES,
};
use personal_ledger_server::domain::TextViolation;

const FORBIDDEN: [char; 9] = ['/', '(', ')', '"', '<', '>', '\\', '{', '}'];

#[test]
fn white_space_is_what_the_standard_library_calls_whitespace() {
    for code in 0..=0x10FFFFu32 {
        if let Some(c) = char::from_u32(code) {
            assert_eq!(is_white_space_char(c), c.is_whitespace(), "U+{:04X}", code);
        }
    }
}

#[test]
fn forbidden_characters_are_exactly_the_nine() {
    for code in 0..=0x10FFFFu32 {
        if let Some(c) = char::from_u32(code) {
            assert_eq!(is_forbidden_char(c), FORBIDDEN.contains(&c), "U+{:04X}", code);
        }
    }
}

#[test]
fn blank_means_that_trimming_leaves_nothing() {
    for text in [
        "",
        " ",
        "\t\n",
        "\u{00A0}\u{2003}\u{3000}",
        " a ",
        "a",
        "\u{200B}",
        "  \u{FEFF}",
        "\r\n x",
    ] {
        assert_eq!(is_blank_text(text), text.trim().is_empty(), "{:?}", text);
    }
}

#[test]
fn empty_and_whitespace_texts_break_the_blank_rule() {
    assert_eq!(validate(" "), Some(TextViolation::Blank));
    assert_eq!(validate(""), Some(TextViolation::Blank));
    assert_eq!(validate("\t\n"), Some(TextViolation::Blank));
    assert_eq!(validate("\u{2028}\u{205F}"), Some(TextViolation::Blank));
}

#[test]
fn the_length_rule_counts_grapheme_clusters() {
    assert_eq!(MAX_GRAPHEMES, 256);
    // 256 clusters of two code points each: 512 characters, 768 bytes.
    let two_code_points = "a\u{310}".repeat(256);
    assert_eq!(two_code_points.chars().count(), 512);
    assert_eq!(validate(&two_code_points), None);
    // 256 clusters of three code points each.
    let three_code_points = "o\u{308}\u{332}".repeat(256);
    assert_eq!(validate(&three_code_points), None);
    // 256 clusters of one code point each.
    assert_eq!(validate(&"a".repeat(256)), None);
    // One cluster more, of whatever size, is too many.
    assert_eq!(validate(&"a".repeat(257)), Some(TextViolation::TooLong));
    assert_eq!(validate(&"a\u{310}".repeat(257)), Some(TextViolation::TooLong));
    assert_eq!(
        validate(&"o\u{308}\u{332}".repeat(257)),
        Some(TextViolation::TooLong)
    );
    // A line break of two characters is one cluster.
    assert_eq!(validate(&format!("a{}", "\r\n".repeat(255))), None);
    assert_eq!(
        validate(&format!("ab{}", "\r\n".repeat(255))),
        Some(TextViolation::TooLong)
    );
}

#[test]
fn the_length_is_measured_before_trimming() {
    let padded = format!(" {}", "a".repeat(256));
    assert_eq!(validate(&padded), Some(TextViolation::TooLong));
    let fits = format!(" {}", "a".repeat(255));
    assert_eq!(validate(&fits), None);
}

#[test]
fn a_forbidden_character_is_found_wherever_it_stands() {
    for c in FORBIDDEN {
        let alone = c.to_string();
        assert_eq!(validate(&alone), Some(TextViolation::ForbiddenCharacter));
        assert!(contains_forbidden(&alone));
        let first = format!("{}Widget", c);
        assert_eq!(validate(&first), Some(TextViolation::ForbiddenCharacter));
        let middle = format!("Wid{}get", c);
        assert_eq!(validate(&middle), Some(TextViolation::ForbiddenCharacter));
        let last = format!("Widget{}", c);
        assert_eq!(validate(&last), Some(TextViolation::ForbiddenCharacter));
        let padded = format!("  {}  ", c);
        assert_eq!(validate(&padded), Some(TextViolation::ForbiddenCharacter));
    }
    assert!(!contains_forbidden("Widget [7] | a-b_c"));
    assert!(!contains_forbidden(""));
}

#[test]
fn the_first_broken_rule_is_reported() {
    // Blank comes before too long.
    assert_eq!(validate(&" ".repeat(300)), Some(TextViolation::Blank));
    // Too long comes before a forbidden character.
    assert_eq!(validate(&"/".repeat(257)), Some(TextViolation::TooLong));
    assert_eq!(validate(&"/".repeat(256)), Some(TextViolation::ForbiddenCharacter));
}

#[test]
fn a_text_counted_beforehand_is_checked_against_that_count() {
    assert_eq!(validate_counted("Widget", 6), None);
    assert_eq!(validate_counted("Widget", 256), None);
    assert_eq!(validate_counted("Widget", 257), Some(TextViolation::TooLong));
    assert_eq!(validate_counted(" ", 1), Some(TextViolation::Blank));
    assert_eq!(validate_counted(" ", 1000), Some(TextViolation::Blank));
    assert_eq!(validate_counted("a/b", 3), Some(TextViolation::ForbiddenCharacter));
    assert_eq!(validate_counted("a/b", 300), Some(TextViolation::TooLong));
}

#[test]
fn ordinary_texts_are_acceptable() {
    for text in [
        "Widget",
        "No Name",
        "No description provided...",
        "Ünïcödé ✓ 日本語",
        "a",
        "x y",
        "tab\tinside",
    ] {
        assert_eq!(validate(text), None, "{:?}", text);
    }
}
