use build_info::whitespace::{is_white_space, trim};

#[test]
fn white_space_agrees_with_std_on_every_char() {
    let mut count = 0;
    for code in 0..=0x10FFFFu32 {
        if let Some(c) = char::from_u32(code) {
            assert_eq!(is_white_space(c), c.is_whitespace(), "U+{:04X}", code);
            if is_white_space(c) {
                count += 1;
            }
        }
    }
    assert_eq!(count, 25);
}

#[test]
fn white_space_examples() {
    for c in [' ', '\t', '\n', '\u{b}', '\u{c}', '\r', '\u{85}', '\u{a0}', '\u{1680}', '\u{2000}', '\u{200a}', '\u{2028}', '\u{2029}', '\u{202f}', '\u{205f}', '\u{3000}'] {
        assert!(is_white_space(c), "{:?}", c);
    }
    for c in ['a', '0', '\u{0}', '\u{8}', '\u{e}', '\u{1f}', '\u{200b}', '\u{180e}', '\u{feff}', '\u{2060}', '-'] {
        assert!(!is_white_space(c), "{:?}", c);
    }
}

#[test]
fn trim_removes_both_ends_only() {
    assert_eq!(trim(""), "");
    assert_eq!(trim(" "), "");
    assert_eq!(trim(" \t\r\n"), "");
    assert_eq!(trim("a"), "a");
    assert_eq!(trim(" a"), "a");
    assert_eq!(trim("a "), "a");
    assert_eq!(trim("v1.2.3-4-gabcdef\n"), "v1.2.3-4-gabcdef");
    assert_eq!(trim("  a b  c \n"), "a b  c");
    assert_eq!(trim("\u{3000}é \u{2009}ü\u{a0}\u{85}"), "é \u{2009}ü");
    assert_eq!(trim("\u{200b} x \u{200b}"), "\u{200b} x \u{200b}");
}

#[test]
fn trim_agrees_with_std() {
    let alphabet = [' ', '\n', 'a', '\u{2003}', 'é', '\u{200b}'];
    let mut texts = vec![String::new()];
    let mut from = 0;
    for _ in 0..5 {
        let to = texts.len();
        for i in from..to {
            for c in alphabet {
                let mut longer = texts[i].clone();
                longer.push(c);
                texts.push(longer);
            }
        }
        from = to;
    }
    for text in &texts {
        assert_eq!(trim(text), text.trim(), "{:?}", text);
    }
}

#[test]
fn trim_is_idempotent() {
    for text in ["", "  ", " a ", "a  b", "\n\ta b c\r\n", "\u{a0}x\u{a0}y\u{a0}"] {
        let once = trim(text);
        assert_eq!(trim(once), once);
        if let (Some(first), Some(last)) = (once.chars().next(), once.chars().last()) {
            assert!(!first.is_whitespace());
            assert!(!last.is_whitespace());
        }
    }
}
