//! Decimal numbers and blank text.

use rag_service::text::{char_is_white_space, is_blank, push_decimal, push_digit};

#[test]
fn decimal_numbers_agree_with_the_standard_library() {
    for n in [0, 1, 9, 10, 99, 100, 1_234_567_890, u64::MAX as u128, u128::MAX] {
        let mut out = "n=".to_string();
        push_decimal(&mut out, n);
        assert_eq!(out, format!("n={n}"));
    }
    let mut out = String::new();
    for d in 0..10 {
        push_digit(&mut out, d);
    }
    assert_eq!(out, "0123456789");
}

#[test]
fn white_space_agrees_with_the_standard_library_on_every_character() {
    for code in 0..=0x10_ffffu32 {
        if let Some(c) = char::from_u32(code) {
            assert_eq!(char_is_white_space(c), c.is_whitespace());
        }
    }
}

#[test]
fn blank_text_is_what_trimming_leaves_empty() {
    for text in ["", " ", "\t\r\n", "\u{2003}\u{a0}", "a", " a", "a ", "\u{200b}"] {
        assert_eq!(is_blank(text), text.trim().is_empty());
    }
}
