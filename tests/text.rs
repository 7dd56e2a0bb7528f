use hyprland_minimizer::text::{push_decimal, push_unsigned, trim};

#[test]
fn decimal_notation_of_integers() {
    let mut s = String::new();
    push_decimal(&mut s, 0);
    assert_eq!(s, "0");
    let mut s = String::from("ws ");
    push_decimal(&mut s, -99);
    assert_eq!(s, "ws -99");
    let mut s = String::new();
    push_decimal(&mut s, i32::MIN);
    assert_eq!(s, "-2147483648");
    let mut s = String::new();
    push_decimal(&mut s, i32::MAX);
    assert_eq!(s, "2147483647");
    let mut s = String::new();
    push_unsigned(&mut s, u32::MAX);
    assert_eq!(s, "4294967295");
}

#[test]
fn trim_removes_unicode_white_space() {
    assert_eq!(trim("  0xA \t\n"), "0xA");
    assert_eq!(trim("\u{3000}x y\u{a0}"), "x y");
    assert_eq!(trim("   "), "");
    assert_eq!(trim(""), "");
    for s in ["a", " a", "a ", "\u{2028}a\u{85}", "\u{200b}a"] {
        assert_eq!(trim(s), s.trim());
    }
}
