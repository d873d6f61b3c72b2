use creditbar::text::{chars_of, contains_str, format_i64, format_u64, is_blank, parse_i64, to_lowercase, trim_string};

#[test]
fn parse_i64_accepts_signs_and_digits() {
    assert_eq!(parse_i64("1712345678"), Some(1712345678));
    assert_eq!(parse_i64("-42"), Some(-42));
    assert_eq!(parse_i64("+7"), Some(7));
    assert_eq!(parse_i64("9223372036854775807"), Some(i64::MAX));
    assert_eq!(parse_i64("-9223372036854775808"), Some(i64::MIN));
}

#[test]
fn parse_i64_rejects_what_std_rejects() {
    for s in ["", "-", "+", " 1", "1 ", "1.5", "abc", "9223372036854775808", "-9223372036854775809", "--1", "1e3"] {
        assert_eq!(parse_i64(s), s.parse::<i64>().ok(), "input {s:?}");
        assert_eq!(parse_i64(s), None, "input {s:?}");
    }
}

#[test]
fn format_integers_in_decimal() {
    assert_eq!(format_u64(0), "0");
    assert_eq!(format_u64(18446744073709551615), "18446744073709551615");
    assert_eq!(format_i64(-1234), "-1234");
    assert_eq!(format_i64(i64::MIN), i64::MIN.to_string());
    assert_eq!(format_i64(987), "987");
}

#[test]
fn trim_removes_unicode_whitespace() {
    assert_eq!(trim_string("  token \n"), "token");
    assert_eq!(trim_string("\u{3000}\u{a0}x y\u{2029}"), "x y");
    assert_eq!(trim_string(""), "");
    assert!(is_blank(" \t\r\n"));
    assert!(!is_blank(" a "));
    let s = "\u{85}\u{2007} jwt.value \u{205f}";
    assert_eq!(trim_string(s), s.trim());
}

#[test]
fn contains_finds_substrings() {
    let hay = chars_of("chatbot_professional_yearly");
    assert!(contains_str(&hay, "professional"));
    assert!(contains_str(&hay, "yearly"));
    assert!(contains_str(&hay, ""));
    assert!(!contains_str(&hay, "annual"));
    assert!(!contains_str(&chars_of("ab"), "abc"));
}

#[test]
fn lowercase_follows_std() {
    assert_eq!(to_lowercase("Chatbot_PRO"), "chatbot_pro");
    assert_eq!(to_lowercase("ÀÉ"), "àé");
}
