use chatter::text;

#[test]
fn trims_white_space_at_the_ends() {
    assert_eq!(text::trim("  a b \n"), "a b");
    assert_eq!(text::trim("\u{3000}\u{85}x\u{2028}"), "x");
    assert_eq!(text::trim(""), "");
    assert_eq!(text::trim(" \t "), "");
    assert_eq!(text::trim_right(" a \r\n"), " a");
}

#[test]
fn white_space_is_that_of_the_standard_library() {
    for code in 0..0x11_0000u32 {
        if let Some(c) = char::from_u32(code) {
            let s = format!("{c}x");
            assert_eq!(text::trim(&s), s.trim(), "{code:x}");
        }
    }
}

#[test]
fn trims_slashes_at_the_end() {
    assert_eq!(text::trim_trailing_slashes("https://a//"), "https://a");
    assert_eq!(text::trim_trailing_slashes("https://a"), "https://a");
    assert_eq!(text::trim_trailing_slashes("//"), "");
}

#[test]
fn writes_and_reads_numbers() {
    for n in [0u64, 7, 10, 99, 100, 12345, u64::MAX] {
        assert_eq!(text::u64_text(n), n.to_string());
        assert_eq!(text::parse_u64(&n.to_string()), Some(n));
    }
    assert_eq!(text::parse_u64("+5"), Some(5));
    assert_eq!(text::parse_u64("007"), Some(7));
    assert_eq!(text::parse_u64("18446744073709551616"), None);
    assert_eq!(text::parse_u64(""), None);
    assert_eq!(text::parse_u64("+"), None);
    assert_eq!(text::parse_u64("-1"), None);
    assert_eq!(text::parse_u64("1a"), None);
    assert_eq!(text::parse_usize("20"), Some(20));
    assert_eq!(text::parse_usize("x"), None);
}

#[test]
fn splits_and_joins_words() {
    let words = text::split_words("  room\tsend  acct-1 \u{a0} hello ");
    assert_eq!(words, vec!["room", "send", "acct-1", "hello"]);
    assert!(text::split_words(" \t").is_empty());
    assert_eq!(text::join_strings(&words, " "), "room send acct-1 hello");
    assert_eq!(text::join_strings(&Vec::new(), ", "), "");
    assert_eq!(text::join_strings(&vec!["a".to_string()], ", "), "a");
}

#[test]
fn knows_prefixes() {
    assert!(text::starts_with("account", "acc"));
    assert!(text::starts_with("account", ""));
    assert!(!text::starts_with("acc", "account"));
    assert_eq!(text::strip_prefix("cursor-9", "cursor-"), Some("9"));
    assert_eq!(text::strip_prefix("cur", "cursor-"), None);
}
