use notes_api::utils::text::{
    chars_of, parse_bool, parse_u16, parse_u32, parse_u64, same_text, starts_with, substring, trim,
};

#[test]
fn chars_of_lists_the_characters() {
    assert_eq!(chars_of(""), Vec::<char>::new());
    assert_eq!(chars_of("aé🔑"), vec!['a', 'é', '🔑']);
}

#[test]
fn substring_takes_characters_not_bytes() {
    let chars = chars_of("aé🔑z");
    assert_eq!(substring(&chars, 1, 3), "é🔑");
    assert_eq!(substring(&chars, 0, 4), "aé🔑z");
    assert_eq!(substring(&chars, 2, 2), "");
}

#[test]
fn trim_removes_whitespace_around_as_std_does() {
    for s in [
        "",
        " ",
        "al",
        "  al  ",
        "\t al \n",
        " a l ",
        "\u{a0}al\u{3000}",
        "\u{2003}\u{2028}x y\u{85}",
        "   \u{200b} ",
    ] {
        assert_eq!(trim(s), s.trim());
    }
    assert_eq!(trim("  al \n"), "al");
    assert_eq!(trim(" a l "), "a l");
}

#[test]
fn same_text_compares_whole_texts() {
    assert!(same_text("", ""));
    assert!(same_text("true", "true"));
    assert!(!same_text("true", "True"));
    assert!(!same_text("true", "tru"));
    assert!(!same_text("tru", "true"));
}

#[test]
fn starts_with_agrees_with_std() {
    for (s, p) in [
        ("http://localhost", "http://"),
        ("https://localhost", "http://"),
        ("http:/", "http://"),
        ("", ""),
        ("", "/"),
        ("/api", "/"),
        ("api/", "/"),
        ("éa", "é"),
    ] {
        assert_eq!(starts_with(s, p), s.starts_with(p));
    }
    assert!(starts_with("http://localhost", "http://"));
    assert!(!starts_with("ftp://localhost", "http://"));
}

#[test]
fn parse_u64_reads_decimal_numbers() {
    assert_eq!(parse_u64("0"), Some(0));
    assert_eq!(parse_u64("30"), Some(30));
    assert_eq!(parse_u64("+30"), Some(30));
    assert_eq!(parse_u64("007"), Some(7));
    assert_eq!(parse_u64("18446744073709551615"), Some(u64::MAX));
    assert_eq!(parse_u64("18446744073709551616"), None);
    assert_eq!(parse_u64("99999999999999999999999"), None);
    assert_eq!(parse_u64(""), None);
    assert_eq!(parse_u64("+"), None);
    assert_eq!(parse_u64("-"), None);
    assert_eq!(parse_u64("-0"), None);
    assert_eq!(parse_u64("++1"), None);
    assert_eq!(parse_u64(" 1"), None);
    assert_eq!(parse_u64("1 "), None);
    assert_eq!(parse_u64("1_000"), None);
    assert_eq!(parse_u64("12a"), None);
    assert_eq!(parse_u64("１２"), None);
    assert_eq!(parse_u64("99999999999999999999999x"), None);
}

#[test]
fn parsers_agree_with_std() {
    for s in [
        "", "+", "-", "0", "+0", "-0", "10", "+10", "010", "65535", "65536", "4294967295",
        "4294967296", "18446744073709551615", "18446744073709551616", "1e3", "0x10", " 7", "7 ",
        "٣", "1.0", "true", "+-1",
    ] {
        assert_eq!(parse_u64(s), s.parse::<u64>().ok(), "{:?}", s);
        assert_eq!(parse_u32(s), s.parse::<u32>().ok(), "{:?}", s);
        assert_eq!(parse_u16(s), s.parse::<u16>().ok(), "{:?}", s);
        assert_eq!(parse_bool(s), s.parse::<bool>().ok(), "{:?}", s);
    }
}

#[test]
fn parse_u32_and_u16_keep_their_ranges() {
    assert_eq!(parse_u32("4294967295"), Some(u32::MAX));
    assert_eq!(parse_u32("4294967296"), None);
    assert_eq!(parse_u16("8080"), Some(8080));
    assert_eq!(parse_u16("65535"), Some(u16::MAX));
    assert_eq!(parse_u16("65536"), None);
}

#[test]
fn parse_bool_reads_two_words() {
    assert_eq!(parse_bool("true"), Some(true));
    assert_eq!(parse_bool("false"), Some(false));
    assert_eq!(parse_bool("True"), None);
    assert_eq!(parse_bool("1"), None);
    assert_eq!(parse_bool(""), None);
    assert_eq!(parse_bool(" true"), None);
}
