use yinlang::text::{decimal_text, numbered, parse_index, same, trim, Margin};

#[test]
fn quotes_are_stripped_from_both_ends_only() {
    assert_eq!(trim("\"mic-on\"", Margin::Quotes), "mic-on");
    assert_eq!(trim("\"\"a\"b\"\"\"", Margin::Quotes), "a\"b");
    assert_eq!(trim("plain", Margin::Quotes), "plain");
    assert_eq!(trim(" \"x\"", Margin::Quotes), " \"x");
    assert_eq!(trim("\"\"\"", Margin::Quotes), "");
    assert_eq!(trim("", Margin::Quotes), "");
    assert_eq!(trim("\"歌曲\"", Margin::Quotes), "歌曲");
}

#[test]
fn trimming_agrees_with_the_standard_library() {
    for s in ["", " ", "\"", "\"\"", "a", "\"a", "a\"", " \t\r\n", " arm64\n", "\u{3000}夜 色\u{a0}", "\"a\" \"b\""] {
        assert_eq!(trim(s, Margin::Quotes), s.trim_matches('"'));
        assert_eq!(trim(s, Margin::Blank), s.trim());
    }
}

#[test]
fn blank_is_unicode_white_space() {
    for n in 0..=0x10ffffu32 {
        if let Some(c) = char::from_u32(n) {
            assert_eq!(Margin::Blank.strips(c), c.is_whitespace(), "{n:x}");
            assert_eq!(Margin::Quotes.strips(c), c == '"');
        }
    }
}

#[test]
fn texts_are_compared_as_a_whole() {
    assert!(same("quit", "quit"));
    assert!(!same("quit", "quit "));
    assert!(!same("quit", "Quit"));
    assert!(same("", ""));
    assert!(same("音频", "音频"));
}

#[test]
fn indices_are_read_like_the_standard_library_reads_them() {
    let big = format!("{}", usize::MAX);
    let bigger = format!("{}0", usize::MAX);
    for s in [
        "0", "5", "12", "007", "+3", "+0", "", "+", "-", "-1", "-0", "++1", " 1", "1 ", "1_0", "0x1", "a", "1a",
        "٣", "18446744073709551616", "99999999999999999999999999", big.as_str(), bigger.as_str(),
    ] {
        assert_eq!(parse_index(s), s.parse::<usize>().ok(), "{s:?}");
    }
    assert_eq!(parse_index("+3"), Some(3));
    assert_eq!(parse_index(&big), Some(usize::MAX));
    assert_eq!(parse_index(&bigger), None);
}

#[test]
fn numbers_are_written_in_decimal() {
    for n in [0usize, 1, 9, 10, 11, 99, 100, 1024, 65535, usize::MAX] {
        assert_eq!(decimal_text(n), n.to_string());
        assert_eq!(parse_index(&decimal_text(n)), Some(n));
    }
    assert_eq!(numbered("wp", 0), "wp0");
    assert_eq!(numbered("theme-", 42), "theme-42");
}
