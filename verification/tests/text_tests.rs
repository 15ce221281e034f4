use bench_agent::text::{contains_text, int_text, parse_u64, text_eq, trim_text};

#[test]
fn trims_unicode_white_space() {
    assert_eq!(trim_text("  a b  "), "a b");
    assert_eq!(trim_text("\t\n\u{3000}x\u{00A0}"), "x");
    assert_eq!(trim_text("   "), "");
    assert_eq!(trim_text(""), "");
    assert_eq!(trim_text("abc"), "abc");
    assert_eq!(trim_text(" \u{2003}a\u{200B}"), "a\u{200B}");
    for t in ["  x ", "\u{85}y\u{2029}", " z\u{205F}"] {
        assert_eq!(trim_text(t), t.trim());
    }
}

#[test]
fn parses_unsigned_decimal() {
    assert_eq!(parse_u64("8589934592"), Some(8589934592));
    assert_eq!(parse_u64("+42"), Some(42));
    assert_eq!(parse_u64("0"), Some(0));
    assert_eq!(parse_u64("18446744073709551615"), Some(u64::MAX));
    assert_eq!(parse_u64("18446744073709551616"), None);
    assert_eq!(parse_u64(""), None);
    assert_eq!(parse_u64("+"), None);
    assert_eq!(parse_u64("-1"), None);
    assert_eq!(parse_u64("12a"), None);
    assert_eq!(parse_u64("1.5"), None);
    assert_eq!(parse_u64(" 1"), None);
    for t in ["123", "+7", "99999999999999999999", "x", "007"] {
        assert_eq!(parse_u64(t), t.parse::<u64>().ok());
    }
}

#[test]
fn writes_decimal_text() {
    assert_eq!(int_text(0), "0");
    assert_eq!(int_text(2019), "2019");
    assert_eq!(int_text(-45), "-45");
    assert_eq!(int_text(i64::MIN), i64::MIN.to_string());
    assert_eq!(int_text(i64::MAX), i64::MAX.to_string());
}

#[test]
fn compares_and_searches_text() {
    assert!(text_eq("abc", "abc"));
    assert!(!text_eq("abc", "abd"));
    assert!(!text_eq("ab", "abc"));
    assert!(contains_text("basic display adapter", "display"));
    assert!(contains_text("x", ""));
    assert!(!contains_text("rd", "rdp"));
}
