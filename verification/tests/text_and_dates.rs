use passrat::date::Date;
use passrat::helpers::format_current_date;
use passrat::text::{
    contains_text, has_white_space, is_blank, padded, parse_u32_text, repeat_char, trimmed,
    u32_to_decimal,
};

#[test]
fn trimmed_removes_unicode_white_space_at_both_ends() {
    assert_eq!(trimmed("  hello world \t\n"), "hello world");
    assert_eq!(trimmed("\u{3000}x\u{a0}"), "x");
    assert_eq!(trimmed("   "), "");
    assert_eq!(trimmed(""), "");
}

#[test]
fn trimming_twice_is_trimming_once() {
    for s in ["  a b ", "\tx\n", "", "   ", "plain"] {
        let once = trimmed(s);
        assert_eq!(trimmed(&once), once);
    }
}

#[test]
fn blank_means_only_white_space() {
    assert!(is_blank(""));
    assert!(is_blank(" \t\r\n"));
    assert!(!is_blank(" a "));
    assert!(has_white_space("a b"));
    assert!(!has_white_space("ab"));
}

#[test]
fn decimal_text_of_numbers() {
    assert_eq!(u32_to_decimal(0), "0");
    assert_eq!(u32_to_decimal(7), "7");
    assert_eq!(u32_to_decimal(1234), "1234");
    assert_eq!(u32_to_decimal(u32::MAX), "4294967295");
}

#[test]
fn parsing_numbers_follows_str_parse() {
    assert_eq!(parse_u32_text("42"), Some(42));
    assert_eq!(parse_u32_text("+42"), Some(42));
    assert_eq!(parse_u32_text("007"), Some(7));
    assert_eq!(parse_u32_text("4294967295"), Some(u32::MAX));
    assert_eq!(parse_u32_text("4294967296"), None);
    assert_eq!(parse_u32_text("-1"), None);
    assert_eq!(parse_u32_text("+"), None);
    assert_eq!(parse_u32_text(""), None);
    assert_eq!(parse_u32_text("1 2"), None);
    for s in ["42", "+42", "007", "4294967296", "-1", "+", "", "1a"] {
        assert_eq!(parse_u32_text(s), s.parse::<u32>().ok());
    }
}

#[test]
fn reading_back_a_written_number_gives_it_again() {
    for n in [0u32, 1, 9, 10, 99, 100, 65535, u32::MAX] {
        assert_eq!(parse_u32_text(&u32_to_decimal(n)), Some(n));
    }
}

#[test]
fn substring_search() {
    assert!(contains_text("github", "hub"));
    assert!(contains_text("github", ""));
    assert!(!contains_text("git", "github"));
    assert!(!contains_text("abc", "ac"));
}

#[test]
fn padding_and_repeating() {
    assert_eq!(padded("PIN", 6), "PIN   ");
    assert_eq!(padded("Password", 4), "Password");
    assert_eq!(repeat_char('*', 3), "***");
    assert_eq!(repeat_char('*', 0), "");
}

#[test]
fn dates_exist_only_in_the_calendar() {
    assert!(Date::from_ymd(2024, 2, 29).is_some());
    assert!(Date::from_ymd(2023, 2, 29).is_none());
    assert!(Date::from_ymd(1900, 2, 29).is_none());
    assert!(Date::from_ymd(2000, 2, 29).is_some());
    assert!(Date::from_ymd(2024, 4, 31).is_none());
    assert!(Date::from_ymd(2024, 13, 1).is_none());
    assert!(Date::from_ymd(2024, 1, 0).is_none());
}

#[test]
fn date_text_matches_chrono() {
    let d = Date::from_ymd(987, 3, 4).unwrap();
    assert_eq!(d.to_text(), "0987-03-04");
    let d = Date::from_ymd(2025, 12, 31).unwrap();
    assert_eq!(d.to_text(), "2025-12-31");
    let d = Date::from_ymd(-1, 1, 1).unwrap();
    assert_eq!(d.to_text(), "-0001-01-01");
    let d = Date::from_ymd(10000, 6, 7).unwrap();
    assert_eq!(d.to_text(), "+10000-06-07");
    for (y, m, dd) in [(987, 3, 4), (2025, 12, 31), (-1, 1, 1), (10000, 6, 7), (-42, 2, 28)] {
        let ours = Date::from_ymd(y, m, dd).unwrap().to_text();
        let theirs = chrono::NaiveDate::from_ymd_opt(y, m, dd).unwrap().to_string();
        assert_eq!(ours, theirs);
    }
}

#[test]
fn dates_in_words() {
    let d = Date::from_ymd(2025, 3, 3).unwrap();
    assert_eq!(format_current_date(d), "Monday, March 3rd, 2025");
    let d = Date::from_ymd(2024, 11, 11).unwrap();
    assert_eq!(format_current_date(d), "Monday, November 11th, 2024");
    let d = Date::from_ymd(2024, 2, 22).unwrap();
    assert_eq!(format_current_date(d), "Thursday, February 22nd, 2024");
    let d = Date::from_ymd(2024, 8, 1).unwrap();
    assert_eq!(format_current_date(d), "Thursday, August 1st, 2024");
}
