use rockey_hockey::text::{char_is_white_space, push_decimal_ascii, push_decimal_chars, trim_str};

#[test]
fn trim_matches_std_trim() {
    for s in ["", "   ", " a ", "\u{85}x y\u{a0}", "\u{200b}zero width\u{200b}", "\t\n\r\u{b}\u{c}q"] {
        assert_eq!(trim_str(s), s.trim());
    }
}

#[test]
fn white_space_matches_std() {
    for c in ['\t', '\n', '\u{b}', ' ', '\u{85}', '\u{a0}', '\u{1680}', '\u{2000}', '\u{200a}', '\u{2028}', '\u{2029}', '\u{202f}', '\u{205f}', '\u{3000}', 'a', '\u{200b}', '\u{180e}', '\u{feff}'] {
        assert_eq!(char_is_white_space(c), c.is_whitespace(), "{:?}", c);
    }
}

#[test]
fn decimal_ascii_digits() {
    let mut out = b"n=".to_vec();
    push_decimal_ascii(0, &mut out);
    assert_eq!(out, b"n=0");
    let mut out = Vec::new();
    push_decimal_ascii(1234567890, &mut out);
    assert_eq!(out, b"1234567890");
    let mut out = Vec::new();
    push_decimal_ascii(usize::MAX, &mut out);
    assert_eq!(out, usize::MAX.to_string().into_bytes());
}

#[test]
fn decimal_chars_digits() {
    let mut s = String::from("Target ");
    push_decimal_chars(42, &mut s);
    assert_eq!(s, "Target 42");
    let mut s = String::new();
    push_decimal_chars(10, &mut s);
    assert_eq!(s, "10");
}
