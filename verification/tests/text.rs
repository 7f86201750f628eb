use tether::text::is_c_compatible;

#[test]
fn plain_strings_fit_in_c_strings() {
    assert!(is_c_compatible(""));
    assert!(is_c_compatible("Hello, world!"));
    assert!(is_c_compatible("h\u{e9}llo \u{1f600} \u{7ff} \u{800}"));
}

#[test]
fn strings_with_nul_do_not() {
    assert!(!is_c_compatible("\0"));
    assert!(!is_c_compatible("a\0b"));
    assert!(!is_c_compatible("\u{e9}\0"));
}
