use cargo_fak::key::{format_key, get_key};
use cargo_fak::paths::build_filename;
use cargo_fak::slug::slug;
use cargo_fak::text::{decimal_string, padded_string};

fn has_slug_shape(s: &str) -> bool {
    !s.is_empty()
        && !s.starts_with('-')
        && !s.ends_with('-')
        && !s.contains("--")
        && s.chars().all(|c| c.is_ascii_lowercase() || c.is_ascii_digit() || c == '-')
}

#[test]
fn slug_lowercases_and_joins_words() {
    assert_eq!(slug("My ADR"), "my-adr");
}

#[test]
fn slug_collapses_punctuation() {
    assert_eq!(slug("Make/Plan: v2"), "make-plan-v2");
}

#[test]
fn slug_of_whitespace_is_untitled() {
    assert_eq!(slug("   "), "untitled");
}

#[test]
fn slug_of_punctuation_is_untitled() {
    assert_eq!(slug("///"), "untitled");
}

#[test]
fn slug_of_empty_is_untitled() {
    assert_eq!(slug(""), "untitled");
}

#[test]
fn slug_drops_leading_and_trailing_separators() {
    assert_eq!(slug("  --Hello__World!!  "), "hello-world");
}

#[test]
fn slug_treats_non_ascii_as_separator() {
    assert_eq!(slug("Café Crème 42"), "caf-cr-me-42");
}

#[test]
fn slug_always_has_the_slug_shape() {
    let titles = [
        "", " ", "a", "A-B", "__x__", "Hello, World!", "ÄÖÜ", "x--y", "2024 plan", "-", "Über cool",
        "tab\tsep\nline",
    ];
    for t in titles.iter() {
        let s = slug(t);
        assert!(has_slug_shape(&s) || s == "untitled", "{:?} gave {:?}", t, s);
    }
}

#[test]
fn filename_at_attempt_zero() {
    assert_eq!(build_filename("dir", "123", "my-adr", 0), "dir/123_my-adr.md");
}

#[test]
fn filename_at_attempt_two() {
    assert_eq!(build_filename("dir", "123", "my-adr", 2), "dir/123_my-adr_2.md");
}

#[test]
fn filename_with_large_attempt() {
    assert_eq!(build_filename("./docs/rfc", "9", "x", 105), "./docs/rfc/9_x_105.md");
}

#[test]
fn decimal_digits() {
    assert_eq!(decimal_string(0), "0");
    assert_eq!(decimal_string(7), "7");
    assert_eq!(decimal_string(1234567890), "1234567890");
    assert_eq!(decimal_string(u64::MAX), "18446744073709551615");
}

#[test]
fn padded_digits() {
    assert_eq!(padded_string(5, 9), "000000005");
    assert_eq!(padded_string(999_999_999, 9), "999999999");
    assert_eq!(padded_string(42, 0), "");
}

#[test]
fn key_pads_nanoseconds_to_nine_digits() {
    assert_eq!(format_key(12, 5), "12000000005");
    assert_eq!(format_key(1_700_000_000, 123_456_789), "1700000000123456789");
    assert_eq!(format_key(0, 0), "0000000000");
}

#[test]
fn key_from_clock_is_digits() {
    let k = get_key().unwrap();
    assert!(k.len() >= 10);
    assert!(k.chars().all(|c| c.is_ascii_digit()));
}
