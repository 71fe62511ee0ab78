use virex::text::{blank, decimal_string, first_chars, first_segment, trim, without_trailing};

#[test]
fn trims_unicode_white_space() {
    assert_eq!(trim(" \t\u{a0}x y\u{2003}\n"), "x y");
    assert_eq!(trim("\u{200b}x"), "\u{200b}x");
    assert_eq!(trim(""), "");
    assert!(blank(" \u{3000}\r\n"));
    assert!(!blank(" . "));
}

#[test]
fn string_helpers() {
    assert_eq!(without_trailing("a//b///", '/'), "a//b");
    assert_eq!(without_trailing("///", '/'), "");
    assert_eq!(first_segment("zh-CN-x", '-'), "zh");
    assert_eq!(first_segment("-x", '-'), "");
    assert_eq!(first_segment("plain", '-'), "plain");
    assert_eq!(first_chars("héllo", 2), "hé");
    assert_eq!(first_chars("hi", 5), "hi");
    assert_eq!(decimal_string(0), "0");
    assert_eq!(decimal_string(429), "429");
    assert_eq!(decimal_string(u64::MAX), u64::MAX.to_string());
}
