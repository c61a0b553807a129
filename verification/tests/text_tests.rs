use gnomeqs::text::{int_to_string, is_whitespace, join_path, replace_all, str_eq, trim, trim_start_matches};
use gnomeqs::visibility::Visibility;

#[test]
fn trim_removes_ascii_and_unicode_space() {
    assert_eq!(trim("  show\n"), "show");
    assert_eq!(trim("\u{3000}abc\u{A0}\t"), "abc");
    assert_eq!(trim("a b"), "a b");
    assert_eq!(trim(" \n\t "), "");
    assert_eq!(trim(""), "");
    assert_eq!(trim("x"), "x");
}

#[test]
fn whitespace_agrees_with_std() {
    for c in ['\t', '\n', '\u{0B}', '\u{0C}', '\r', ' ', '\u{85}', '\u{A0}', '\u{1680}', '\u{2000}',
        '\u{200A}', '\u{2028}', '\u{2029}', '\u{202F}', '\u{205F}', '\u{3000}', 'a', '0', '\u{200B}',
        '\u{FEFF}', '_']
    {
        assert_eq!(is_whitespace(c), c.is_whitespace(), "{:?}", c);
    }
}

#[test]
fn string_equality() {
    assert!(str_eq("light", "light"));
    assert!(!str_eq("light", "Light"));
    assert!(!str_eq("light", "lights"));
    assert!(str_eq("", ""));
}

#[test]
fn prefix_stripping_repeats() {
    assert_eq!(trim_start_matches("ble:AA:BB", "ble:"), "AA:BB");
    assert_eq!(trim_start_matches("ble:ble:AA", "ble:"), "AA");
    assert_eq!(trim_start_matches("xble:AA", "ble:"), "xble:AA");
    assert_eq!(trim_start_matches("ble:", "ble:"), "");
    assert_eq!(trim_start_matches("abc", ""), "abc");
}

#[test]
fn path_join() {
    assert_eq!(join_path("/run/user/1000", "x.sock"), "/run/user/1000/x.sock");
    assert_eq!(join_path("/tmp/", "x.sock"), "/tmp/x.sock");
    assert_eq!(join_path("", "x.sock"), "x.sock");
}

#[test]
fn visibility_raw_values() {
    assert_eq!(Visibility::from_raw_value(0), Visibility::Visible);
    assert_eq!(Visibility::from_raw_value(1), Visibility::Invisible);
    assert_eq!(Visibility::from_raw_value(2), Visibility::Temporarily);
    assert_eq!(Visibility::from_raw_value(9), Visibility::Visible);
    assert_eq!(Visibility::Visible.as_raw(), 0);
    assert_eq!(Visibility::Invisible.as_raw(), 1);
    assert_eq!(Visibility::Temporarily.as_raw(), 2);
}

#[test]
fn replace_all_as_std_replace() {
    let cases = [
        ("a{}b{}", "{}", "7"),
        ("aaa", "aa", "X"),
        ("", "x", "y"),
        ("no match", "zz", "y"),
        ("ééé", "é", "e"),
        ("__X____X__", "__X__", "[]"),
    ];
    for (s, p, r) in cases {
        assert_eq!(replace_all(s, p, r), s.replace(p, r));
    }
    assert_eq!(replace_all("aaa", "aa", "X"), "Xa");
}

#[test]
fn integers_as_text() {
    for x in [0, 7, 10, 365, 1000, -5, -10, i32::MAX, i32::MIN] {
        assert_eq!(int_to_string(x), x.to_string());
    }
    assert_eq!(int_to_string(-2147483648), "-2147483648");
}
