use azure_catalog::text::{
    chars_of, contains_infix, eq_ignore_ascii_case, first_label_of, is_white_space_char,
    join_with_spaces, lower_ascii_char, string_of, to_ascii_lowercase, trim,
};

#[test]
fn lower_casing_touches_ascii_letters_only() {
    assert_eq!(to_ascii_lowercase("AbC-Ä-Z@["), "abc-Ä-z@[");
    assert_eq!(lower_ascii_char('Q'), 'q');
    assert_eq!(lower_ascii_char('É'), 'É');
    let once = to_ascii_lowercase("MiXeD");
    assert_eq!(to_ascii_lowercase(&once), once);
}

#[test]
fn case_insensitive_comparison() {
    assert!(eq_ignore_ascii_case("OpenAI", "openai"));
    assert!(!eq_ignore_ascii_case("OpenAI", "openai "));
    assert!(!eq_ignore_ascii_case("Ä", "ä"));
    assert!(eq_ignore_ascii_case("", ""));
}

#[test]
fn trimming_matches_std() {
    for s in ["", "  ", " a ", "\u{85}x\u{3000}", "\u{200b}y", "a b", "\t\n\r z \u{a0}"] {
        assert_eq!(trim(s), s.trim());
    }
}

#[test]
fn white_space_matches_std() {
    for c in ['\u{0}', ' ', '\t', '\u{b}', '\u{1c}', '\u{85}', '\u{a0}', '\u{1680}', '\u{180e}', '\u{2000}', '\u{200a}', '\u{200b}', '\u{2028}', '\u{202f}', '\u{205f}', '\u{3000}', 'a', '\u{feff}'] {
        assert_eq!(is_white_space_char(c), c.is_whitespace(), "{c:?}");
    }
}

#[test]
fn infix_search() {
    assert!(contains_infix("a.openai.azure.com", "openai.azure."));
    assert!(!contains_infix("a.openai.azure", "openai.azure."));
    assert!(contains_infix("", ""));
    assert!(contains_infix("abc", "c"));
    assert!(!contains_infix("ab", "abc"));
}

#[test]
fn first_label_is_text_before_the_first_dot() {
    assert_eq!(first_label_of("a.b.c"), "a");
    assert_eq!(first_label_of("abc"), "abc");
    assert_eq!(first_label_of(".b"), "");
    assert_eq!(first_label_of(""), "");
}

#[test]
fn joining_and_copying_text() {
    let parts = vec!["a".to_string(), "".to_string(), "c d".to_string()];
    assert_eq!(join_with_spaces(&parts), "a  c d");
    assert_eq!(join_with_spaces(&vec!["x".to_string()]), "x");
    assert_eq!(join_with_spaces(&Vec::new()), "");
    let cs = chars_of("héllo");
    assert_eq!(cs, vec!['h', 'é', 'l', 'l', 'o']);
    assert_eq!(string_of(&cs, 1, 4), "éll");
}
