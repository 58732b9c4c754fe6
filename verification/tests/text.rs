use drogue_cloud_testing::text::{
    bytes_equal, joined, decimal_string, opt_string_equal, str_equal, trim, trim_end_char,
};

#[test]
fn str_equal_compares_characters() {
    assert!(str_equal("abc", "abc"));
    assert!(!str_equal("abc", "abd"));
    assert!(!str_equal("abc", "ab"));
    assert!(str_equal("", ""));
    assert!(str_equal("äöü", "äöü"));
}

#[test]
fn decimal_renders_numbers() {
    assert_eq!(decimal_string(0), "0");
    assert_eq!(decimal_string(7), "7");
    assert_eq!(decimal_string(10), "10");
    assert_eq!(decimal_string(12345), "12345");
    assert_eq!(decimal_string(u64::MAX), u64::MAX.to_string());
}

#[test]
fn trim_removes_unicode_white_space() {
    assert_eq!(trim("  abc \n"), "abc");
    assert_eq!(trim("\u{3000}x y\u{85}"), "x y");
    assert_eq!(trim(""), "");
    assert_eq!(trim(" \t "), "");
    for s in ["\u{a0}a\u{2028}", "\u{1680}b", "c\u{200a}", "\u{b}\u{c}d"] {
        assert_eq!(trim(s), s.trim());
    }
}

#[test]
fn trim_end_char_strips_trailing_only() {
    assert_eq!(trim_end_char("a/b///", '/'), "a/b");
    assert_eq!(trim_end_char("///", '/'), "");
    assert_eq!(trim_end_char("/a", '/'), "/a");
}

#[test]
fn byte_and_option_equality() {
    assert!(bytes_equal(&[1, 2, 3], &[1, 2, 3]));
    assert!(!bytes_equal(&[1, 2, 3], &[1, 2]));
    assert!(!bytes_equal(&[1, 2, 3], &[1, 2, 4]));
    assert!(opt_string_equal(&None, &None));
    assert!(opt_string_equal(&Some("a".into()), &Some("a".into())));
    assert!(!opt_string_equal(&Some("a".into()), &None));
    assert!(!opt_string_equal(&Some("a".into()), &Some("b".into())));
    assert_eq!(joined("foo", "bar"), "foobar");
}

