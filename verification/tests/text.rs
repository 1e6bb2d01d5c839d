use speekr::text::{chars_of, is_whitespace, ends_with, push_decimal, same_text, starts_with, string_from_range, trim};

#[test]
fn trim_removes_surrounding_whitespace() {
    assert_eq!(trim("  hello world \n\t"), "hello world");
    assert_eq!(trim("\u{a0}x\u{3000}"), "x");
    assert_eq!(trim("   "), "");
    assert_eq!(trim(""), "");
    assert_eq!(trim("inner  space"), "inner  space");
}

#[test]
fn trim_is_idempotent_on_examples() {
    for s in ["  a ", "b", " \n c d \t", ""] {
        let once = trim(s);
        assert_eq!(trim(&once), once);
    }
}

#[test]
fn decimal_rendering() {
    let mut s = String::from("n=");
    push_decimal(&mut s, 0);
    assert_eq!(s, "n=0");
    let mut s = String::new();
    push_decimal(&mut s, 1234567890);
    assert_eq!(s, "1234567890");
    let mut s = String::new();
    push_decimal(&mut s, u128::MAX);
    assert_eq!(s, u128::MAX.to_string());
}

#[test]
fn prefix_and_suffix() {
    assert!(starts_with("speekr-kitten-1.wav", "speekr-kitten-"));
    assert!(!starts_with("speekr", "speekr-kitten-"));
    assert!(ends_with("speekr-kitten-1.wav", ".wav"));
    assert!(!ends_with("speekr-kitten-1.wav", ".txt"));
    assert!(starts_with("abc", ""));
    assert!(ends_with("", ""));
}

#[test]
fn characters_round_trip() {
    let chars = chars_of("Xin chào");
    assert_eq!(chars.len(), 8);
    assert_eq!(string_from_range(&chars, 0, chars.len()), "Xin chào");
    assert_eq!(string_from_range(&chars, 4, 8), "chào");
    assert!(same_text("đ", "đ"));
    assert!(!same_text("đ", "d"));
}

#[test]
fn whitespace_agrees_with_std_on_every_char() {
    for code in 0u32..=0x10FFFF {
        if let Some(c) = char::from_u32(code) {
            assert_eq!(is_whitespace(c), c.is_whitespace(), "U+{code:04X}");
        }
    }
}

#[test]
fn trim_agrees_with_std() {
    for s in ["\u{2003}x\u{85}", "\t\r\n y \u{feff}", "\u{200b}z", " \u{1680}\u{3000}"] {
        assert_eq!(trim(s), s.trim());
    }
}
