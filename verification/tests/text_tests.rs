use obsidian_mcp::text::{
    chars_of, first_line, hex_encode, i64_to_string, join_strings, nonblank_lines_of,
    parse_u64_chars, str_eq, trim_str, u64_to_string, words_of,
};

fn parse(s: &str) -> Option<u64> {
    parse_u64_chars(&chars_of(s))
}

#[test]
fn trim_removes_unicode_white_space() {
    assert_eq!(trim_str("  \t hello world \r\n"), "hello world");
    assert_eq!(trim_str("\u{3000}x\u{a0}"), "x");
    assert_eq!(trim_str("   "), "");
    assert_eq!(trim_str(""), "");
}

#[test]
fn trim_agrees_with_std() {
    for s in ["", " a ", "\u{2028}b\u{85}", "\u{200b}c", "x\u{feff}"] {
        assert_eq!(trim_str(s), s.trim());
    }
}

#[test]
fn nonblank_lines_are_trimmed_and_non_empty() {
    let lines = nonblank_lines_of(&chars_of("  alpha \r\n\n   \nbeta\r\ngamma"));
    assert_eq!(lines, vec!["alpha", "beta", "gamma"]);
    assert!(nonblank_lines_of(&chars_of("")).is_empty());
}

#[test]
fn first_line_drops_carriage_return() {
    let l: String = first_line(&chars_of("one\r\ntwo")).into_iter().collect();
    assert_eq!(l, "one");
    let l: String = first_line(&chars_of("only\r")).into_iter().collect();
    assert_eq!(l, "only\r");
    for s in ["a\nb", "\n", "x\r\n", "plain"] {
        let l: String = first_line(&chars_of(s)).into_iter().collect();
        assert_eq!(l, s.lines().next().unwrap());
    }
}

#[test]
fn parse_u64_follows_from_str() {
    assert_eq!(parse("42"), Some(42));
    assert_eq!(parse("+7"), Some(7));
    assert_eq!(parse("007"), Some(7));
    assert_eq!(parse(""), None);
    assert_eq!(parse("+"), None);
    assert_eq!(parse("-1"), None);
    assert_eq!(parse(" 1"), None);
    assert_eq!(parse("12a"), None);
    assert_eq!(parse("18446744073709551615"), Some(u64::MAX));
    assert_eq!(parse("18446744073709551616"), None);
    for s in ["0", "99", "+0", "1x", "", "184467440737095516150"] {
        assert_eq!(parse(s), s.parse::<u64>().ok());
    }
}

#[test]
fn numerals_round_trip() {
    for n in [0u64, 9, 10, 12345, u64::MAX] {
        let s = u64_to_string(n);
        assert_eq!(s, n.to_string());
        assert_eq!(parse(&s), Some(n));
    }
    assert_eq!(i64_to_string(-1), "-1");
    assert_eq!(i64_to_string(i64::MIN), i64::MIN.to_string());
    assert_eq!(i64_to_string(250), "250");
}

#[test]
fn hex_is_two_lower_case_digits_per_byte() {
    assert_eq!(hex_encode(&[0x00, 0x0f, 0xab, 0xff]), "000fabff");
    assert_eq!(hex_encode(&[]), "");
}

#[test]
fn join_and_words() {
    let parts = vec!["a b".to_string(), "".to_string(), "c".to_string()];
    assert_eq!(join_strings(&parts, " "), "a b  c");
    let ws: Vec<String> = words_of(&chars_of("  350 words\tand\n2100 chars "))
        .into_iter()
        .map(|w| w.into_iter().collect())
        .collect();
    assert_eq!(ws, vec!["350", "words", "and", "2100", "chars"]);
}

#[test]
fn string_equality() {
    assert!(str_eq("vault://files", "vault://files"));
    assert!(!str_eq("vault://files", "vault://file"));
}
