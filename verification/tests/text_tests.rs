use clipvault::text::{decimal_string, is_whitespace, signed_decimal_string, split, str_eq, trim};

#[test]
fn trim_removes_white_space_at_both_ends() {
    assert_eq!(trim("  a b \t\n"), "a b");
    assert_eq!(trim("\u{3000}x\u{a0}"), "x");
    assert_eq!(trim("   "), "");
    assert_eq!(trim(""), "");
    assert_eq!(trim("x"), "x");
}

#[test]
fn trim_agrees_with_std() {
    for s in [" {\"a\": 1}\n", "\r\n\u{2028}text\u{85}", "no space", " \u{1680} ", "é è"] {
        assert_eq!(trim(s), s.trim());
    }
}

#[test]
fn white_space_is_what_std_says() {
    for n in 0u32..0x3100 {
        if let Some(c) = char::from_u32(n) {
            assert_eq!(is_whitespace(c), c.is_whitespace());
        }
    }
}

#[test]
fn split_keeps_empty_pieces() {
    assert_eq!(split("a+b", '+'), vec!["a", "b"]);
    assert_eq!(split("", '+'), vec![""]);
    assert_eq!(split("+", '+'), vec!["", ""]);
    assert_eq!(split("a++b+", '+'), vec!["a", "", "b", ""]);
    assert_eq!(split("abc", '+'), vec!["abc"]);
}

#[test]
fn decimal_rendering() {
    assert_eq!(decimal_string(0), "0");
    assert_eq!(decimal_string(7), "7");
    assert_eq!(decimal_string(10), "10");
    assert_eq!(decimal_string(2000), "2000");
    assert_eq!(decimal_string(u64::MAX), "18446744073709551615");
}

#[test]
fn signed_decimal_rendering() {
    assert_eq!(signed_decimal_string(0), "0");
    assert_eq!(signed_decimal_string(42), "42");
    assert_eq!(signed_decimal_string(-1), "-1");
    assert_eq!(signed_decimal_string(i64::MIN), "-9223372036854775808");
    assert_eq!(signed_decimal_string(i64::MAX), "9223372036854775807");
}

#[test]
fn string_comparison() {
    assert!(str_eq("Shift", "Shift"));
    assert!(!str_eq("Shift", "shift"));
    assert!(!str_eq("", "a"));
}
