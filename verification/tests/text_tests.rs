use tls_echo::text::{same_text, trim, white_space};

#[test]
fn trim_removes_newline_and_spaces() {
    assert_eq!(trim("  hello world \r\n"), "hello world");
}

#[test]
fn trim_keeps_inner_whitespace() {
    assert_eq!(trim("\ta \t b\n"), "a \t b");
}

#[test]
fn trim_of_blank_line_is_empty() {
    assert_eq!(trim(" \t\r\n "), "");
    assert_eq!(trim(""), "");
}

#[test]
fn trim_handles_unicode_whitespace() {
    assert_eq!(trim("\u{3000}\u{a0}x\u{85}\u{2028}"), "x");
    assert_eq!(trim("\u{200b}x"), "\u{200b}x");
}

#[test]
fn trim_agrees_with_std() {
    let samples = [
        "", " ", "abc", "  abc", "abc  ", " a b ", "\u{1680}é\u{205f}", "\u{feff}x", "\n\nq\n",
        "\u{2000}\u{200a}\u{202f}",
    ];
    for s in samples {
        assert_eq!(trim(s), s.trim(), "sample {:?}", s);
    }
}

#[test]
fn trim_is_idempotent_on_examples() {
    for s in ["  x  ", "\n", "a b", "\u{3000}quit\u{3000}"] {
        assert_eq!(trim(trim(s)), trim(s));
    }
}

#[test]
fn white_space_matches_char_is_whitespace() {
    for c in ['\t', '\n', '\u{b}', '\u{c}', '\r', ' ', '\u{85}', '\u{a0}', '\u{1680}', '\u{2000}',
        '\u{200a}', '\u{2028}', '\u{2029}', '\u{202f}', '\u{205f}', '\u{3000}', 'a', '\u{200b}',
        '\u{180e}', '\u{feff}', '0', '\u{1f600}']
    {
        assert_eq!(white_space(c), c.is_whitespace(), "char {:?}", c);
    }
}

#[test]
fn same_text_compares_characters() {
    assert!(same_text("quit", "quit"));
    assert!(!same_text("quit", "quiT"));
    assert!(!same_text("quit", "qui"));
    assert!(same_text("", ""));
    assert!(same_text("é", "é"));
}
