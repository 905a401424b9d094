use passgen::chars::MASK_GLYPH;
use passgen::erase::destroy_password;
use passgen::generate::generate_password;
use passgen::input::{is_yes, parse_length, resolve_length_input, resolve_symbols_input, trim_whitespace};
use passgen::mask::{blank_line, mask_password};
use passgen::{default_parameters, DEFAULT_INCLUDE_SYMBOLS, DEFAULT_LENGTH, MAX_LENGTH, MIN_LENGTH, RETENTION_SECONDS};

const SYMBOLS: &str = "!@#$%^&*()-=_+[]{}|;:',.<>?/";

fn is_alnum(c: char) -> bool {
    c.is_ascii_alphanumeric()
}

fn is_symbol(c: char) -> bool {
    SYMBOLS.contains(c)
}

#[test]
fn generated_length_matches_request_across_range() {
    for length in 10..=100usize {
        let with_symbols = generate_password(length, true);
        let without_symbols = generate_password(length, false);
        assert_eq!(with_symbols.chars().count(), length);
        assert_eq!(without_symbols.chars().count(), length);
    }
}

#[test]
fn generated_characters_come_from_the_fixed_sets() {
    for _ in 0..50 {
        let password = generate_password(40, true);
        for c in password.chars() {
            assert!(is_alnum(c) || is_symbol(c), "unexpected character {:?}", c);
        }
    }
}

#[test]
fn no_symbols_means_alphanumeric_only() {
    for _ in 0..200 {
        let password = generate_password(64, false);
        for c in password.chars() {
            assert!(is_alnum(c), "unexpected character {:?}", c);
        }
    }
}

#[test]
fn symbols_requested_appear_over_many_trials() {
    let mut saw_symbol = false;
    for _ in 0..200 {
        let password = generate_password(50, true);
        if password.chars().any(is_symbol) {
            saw_symbol = true;
            break;
        }
    }
    assert!(saw_symbol, "no symbol in 200 generated passwords of length 50");
}

#[test]
fn mask_shape_exact_value() {
    let masked = mask_password("abcdefghij");
    let expected: String = format!("abcde{}{}{}ij", MASK_GLYPH, MASK_GLYPH, MASK_GLYPH);
    assert_eq!(masked, expected);
}

#[test]
fn mask_counts_across_lengths() {
    for length in 10..=100usize {
        let password: String = std::iter::repeat('x').take(length).collect();
        let masked = mask_password(&password);
        assert_eq!(masked.chars().count(), length);
        let glyphs = masked.chars().filter(|c| *c == MASK_GLYPH).count();
        assert_eq!(glyphs, length - 7);
        let visible_prefix = masked.chars().take(5).filter(|c| *c != MASK_GLYPH).count();
        let visible_suffix = masked.chars().skip(length - 2).filter(|c| *c != MASK_GLYPH).count();
        assert_eq!(visible_prefix, 5);
        assert_eq!(visible_suffix, 2);
    }
}

#[test]
fn mask_keeps_the_visible_ends() {
    let masked = mask_password("ABCDE123456789xy");
    assert!(masked.starts_with("ABCDE"));
    assert!(masked.ends_with("xy"));
    for c in masked.chars().skip(5).take(16 - 7) {
        assert_eq!(c, MASK_GLYPH);
    }
}

#[test]
fn end_to_end_masked_pattern_length_ten_no_symbols() {
    let password = generate_password(10, false);
    let masked = mask_password(&password);
    let shown: Vec<char> = masked.chars().collect();
    assert_eq!(shown.len(), 10);
    for i in 0..5 {
        assert!(shown[i].is_ascii_alphanumeric(), "position {} not alphanumeric", i);
    }
    for i in 5..8 {
        assert_eq!(shown[i], MASK_GLYPH, "position {} not masked", i);
    }
    for i in 8..10 {
        assert!(shown[i].is_ascii_alphanumeric(), "position {} not alphanumeric", i);
    }
}

#[test]
fn erase_reports_the_original_byte_count() {
    for length in [10usize, 37, 50, 100] {
        let password = generate_password(length, true);
        assert_eq!(destroy_password(password), length);
    }
    assert_eq!(destroy_password(String::from("0123456789")), 10);
    assert_eq!(destroy_password(String::new()), 0);
}

#[test]
fn parse_length_accepts_the_range_bounds() {
    assert_eq!(parse_length("10"), Some(10));
    assert_eq!(parse_length("42"), Some(42));
    assert_eq!(parse_length("100"), Some(100));
    assert_eq!(parse_length("0050"), Some(50));
}

#[test]
fn parse_length_rejects_out_of_range_and_non_numeric() {
    assert_eq!(parse_length("5"), None);
    assert_eq!(parse_length("9"), None);
    assert_eq!(parse_length("101"), None);
    assert_eq!(parse_length("150"), None);
    assert_eq!(parse_length("99999999999999999999"), None);
    assert_eq!(parse_length("abc"), None);
    assert_eq!(parse_length("1a"), None);
    assert_eq!(parse_length("-20"), None);
    assert_eq!(parse_length("4 2"), None);
    assert_eq!(parse_length(""), None);
}

#[test]
fn resolve_length_input_trims_the_line() {
    assert_eq!(resolve_length_input("42\n"), Some(42));
    assert_eq!(resolve_length_input("  100 \r\n"), Some(100));
    assert_eq!(resolve_length_input(" 5 \n"), None);
    assert_eq!(resolve_length_input("abc\n"), None);
    assert_eq!(resolve_length_input("   \n"), None);
}

#[test]
fn yes_answers_ignore_case_and_surrounding_space() {
    assert!(is_yes("yes"));
    assert!(is_yes("YES"));
    assert!(is_yes("YeS"));
    assert!(!is_yes("no"));
    assert!(!is_yes("y"));
    assert!(!is_yes(""));
    assert!(!is_yes("yes please"));
    assert!(resolve_symbols_input("yes\n"));
    assert!(resolve_symbols_input("  Yes \n"));
    assert!(!resolve_symbols_input("no\n"));
    assert!(!resolve_symbols_input("\n"));
}

#[test]
fn trim_strips_both_ends_only() {
    assert_eq!(trim_whitespace("  a b \t\r\n"), "a b");
    assert_eq!(trim_whitespace("abc"), "abc");
    assert_eq!(trim_whitespace("   "), "");
    assert_eq!(trim_whitespace(""), "");
}

#[test]
fn blank_line_is_all_spaces() {
    assert_eq!(blank_line(0), "");
    assert_eq!(blank_line(5), "     ");
    assert_eq!(blank_line(50).len(), 50);
    assert!(blank_line(50).chars().all(|c| c == ' '));
}

#[test]
fn defaults_match_the_documented_run() {
    assert_eq!(default_parameters(), (50, true));
    assert_eq!(DEFAULT_LENGTH, 50);
    assert!(DEFAULT_INCLUDE_SYMBOLS);
    assert_eq!(MIN_LENGTH, 10);
    assert_eq!(MAX_LENGTH, 100);
    assert_eq!(RETENTION_SECONDS, 15);
}
