use mpd_bridge::text::{
    decimal_string, join, labelled, labelled_number, lines_of, parse_i16, parse_u16,
    parse_unsigned, parse_usize, seconds_string, starts_with, str_eq, to_chars, trim,
};

#[test]
fn trim_takes_white_space_from_both_ends_only() {
    assert_eq!(trim("status\n"), "status");
    assert_eq!(trim("  \t add \"a b\" \r\n"), "add \"a b\"");
    assert_eq!(trim("\u{a0}play\u{2003}"), "play");
    assert_eq!(trim(""), "");
    assert_eq!(trim(" \n "), "");
    assert_eq!(trim("plain"), "plain");
}

#[test]
fn a_string_gives_its_characters() {
    assert_eq!(to_chars("héllo"), vec!['h', 'é', 'l', 'l', 'o']);
    assert!(to_chars("").is_empty());
}

#[test]
fn strings_compare_by_their_characters() {
    assert!(str_eq("idle", "idle"));
    assert!(str_eq("", ""));
    assert!(!str_eq("idle", "idle "));
    assert!(!str_eq("idle", "idlf"));
    assert!(!str_eq("a", ""));
}

#[test]
fn starts_with_compares_the_beginning() {
    assert!(starts_with("playlistinfo", "play"));
    assert!(starts_with("play", "play"));
    assert!(starts_with("play", ""));
    assert!(!starts_with("pla", "play"));
    assert!(!starts_with("xplay", "play"));
}

#[test]
fn join_puts_the_separator_between() {
    assert_eq!(join(&vec![], ";"), "");
    assert_eq!(join(&vec!["a".to_owned()], ";"), "a");
    assert_eq!(join(&vec!["a".to_owned(), "b".to_owned(), "".to_owned()], "; "), "a; b; ");
}

#[test]
fn labels_and_numbers() {
    assert_eq!(labelled("state: ", "Stopped"), "state: Stopped");
    assert_eq!(labelled_number("volume: ", 100), "volume: 100");
    assert_eq!(decimal_string(0), "0");
    assert_eq!(decimal_string(7), "7");
    assert_eq!(decimal_string(10), "10");
    assert_eq!(decimal_string(65535), "65535");
    assert_eq!(decimal_string(u64::MAX), "18446744073709551615");
    assert_eq!(lines_of(vec!["a", "b"]), vec!["a".to_owned(), "b".to_owned()]);
}

#[test]
fn seconds_have_three_decimal_places() {
    assert_eq!(seconds_string(0), "0.000");
    assert_eq!(seconds_string(5), "0.005");
    assert_eq!(seconds_string(12_345), "12.345");
    assert_eq!(seconds_string(60_000), "60.000");
    assert_eq!(seconds_string(1_090), "1.090");
}

#[test]
fn unsigned_numbers_are_digits_with_an_optional_plus() {
    assert_eq!(parse_unsigned("0", 10), Some(0));
    assert_eq!(parse_unsigned("007", 10), Some(7));
    assert_eq!(parse_unsigned("+10", 10), Some(10));
    assert_eq!(parse_unsigned("11", 10), None);
    assert_eq!(parse_unsigned("", 10), None);
    assert_eq!(parse_unsigned("+", 10), None);
    assert_eq!(parse_unsigned("-1", 10), None);
    assert_eq!(parse_unsigned("1 ", 10), None);
    assert_eq!(parse_unsigned(" 1", 10), None);
    assert_eq!(parse_unsigned("1_0", 10), None);
    assert_eq!(parse_unsigned("++1", 10), None);
    assert_eq!(parse_unsigned("٣", 10), None);
    assert_eq!(parse_unsigned("18446744073709551615", u64::MAX), Some(u64::MAX));
    assert_eq!(parse_unsigned("18446744073709551616", u64::MAX), None);
    assert_eq!(parse_unsigned("99999999999999999999999", u64::MAX), None);
}

#[test]
fn parsing_agrees_with_the_standard_library() {
    for s in [
        "0", "1", "+1", "-1", "-0", "+0", "", "+", "-", "65535", "65536", "32767", "32768",
        "-32768", "-32769", "12a", "a12", " 12", "12 ", "0012", "+-3", "--3", "1e3", "١٢",
    ] {
        assert_eq!(parse_usize(s), s.parse::<usize>().ok());
        assert_eq!(parse_u16(s), s.parse::<u16>().ok());
        assert_eq!(parse_i16(s), s.parse::<i16>().ok());
    }
}

#[test]
fn signed_numbers_reach_both_ends_of_their_range() {
    assert_eq!(parse_i16("-1000"), Some(-1000));
    assert_eq!(parse_i16("32767"), Some(32767));
    assert_eq!(parse_i16("-32768"), Some(-32768));
    assert_eq!(parse_i16("32768"), None);
    assert_eq!(parse_i16("-32769"), None);
    assert_eq!(parse_u16("65535"), Some(65535));
    assert_eq!(parse_u16("65536"), None);
}
