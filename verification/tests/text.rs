use glide_kvm::text::{decimal_string, str_equals, trimmed};

#[test]
fn decimal_renders_like_to_string() {
    for v in [0i64, 7, 9, 10, 42, -1, -42, 24800, 1000000, i64::MAX, i64::MIN, i32::MIN as i64] {
        assert_eq!(decimal_string(v), v.to_string());
    }
}

#[test]
fn decimal_exact_values() {
    assert_eq!(decimal_string(0), "0");
    assert_eq!(decimal_string(-305), "-305");
    assert_eq!(decimal_string(i64::MIN), "-9223372036854775808");
}

#[test]
fn trimmed_removes_surrounding_white_space() {
    assert_eq!(trimmed("  100.119.208.55\t\n"), "100.119.208.55");
    assert_eq!(trimmed("a b"), "a b");
    assert_eq!(trimmed(""), "");
    assert_eq!(trimmed(" \t\r\n "), "");
    assert_eq!(trimmed("\u{3000}x\u{a0}\u{2009}"), "x");
    assert_eq!(trimmed("\u{85}y\u{2028}"), "y");
}

#[test]
fn trimmed_agrees_with_str_trim() {
    let samples = [
        "", " ", "x", " x ", "\u{feff}x", "\u{200b}x\u{200b}", "\u{1680}\u{2000}\u{200a}z\u{202f}\u{205f}",
        "\u{0b}\u{0c}q\u{0b}", "a\u{3000}b",
    ];
    for s in samples {
        assert_eq!(trimmed(s), s.trim(), "sample {:?}", s);
    }
}

#[test]
fn str_equals_compares_characters() {
    assert!(str_equals("", ""));
    assert!(str_equals("Return", "Return"));
    assert!(!str_equals("Return", "return"));
    assert!(!str_equals("ab", "abc"));
    assert!(str_equals("⚪é", "⚪é"));
    assert!(!str_equals("é", "e"));
}
