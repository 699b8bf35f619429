use portal_core::auth::header::{bearer_token, is_whitespace};

#[test]
fn white_space_is_the_unicode_property() {
    for code in 0..=0x10FFFFu32 {
        if let Some(c) = char::from_u32(code) {
            assert_eq!(is_whitespace(c), c.is_whitespace(), "U+{:04X}", code);
        }
    }
}

#[test]
fn token_is_the_second_word() {
    assert_eq!(bearer_token("Bearer abc"), Some("abc".to_string()));
    assert_eq!(bearer_token("Bearer abc def"), Some("abc".to_string()));
    assert_eq!(bearer_token("  Bearer \t abc  "), Some("abc".to_string()));
    assert_eq!(bearer_token("a b"), Some("b".to_string()));
    assert_eq!(bearer_token("x\ny"), Some("y".to_string()));
}

#[test]
fn scheme_is_not_looked_at() {
    assert_eq!(bearer_token("Basic abc"), Some("abc".to_string()));
    assert_eq!(bearer_token("abc abc"), Some("abc".to_string()));
    assert_eq!(bearer_token("? abc"), Some("abc".to_string()));
}

#[test]
fn fewer_than_two_words_hold_no_token() {
    assert_eq!(bearer_token(""), None);
    assert_eq!(bearer_token(" "), None);
    assert_eq!(bearer_token(" \t \n "), None);
    assert_eq!(bearer_token("Bearer"), None);
    assert_eq!(bearer_token("Bearer "), None);
    assert_eq!(bearer_token("  Bearer\t"), None);
    assert_eq!(bearer_token("abc"), None);
}

#[test]
fn words_may_be_of_any_characters() {
    assert_eq!(bearer_token("B\u{e4}r \u{1F600}\u{fc}x z"), Some("\u{1F600}\u{fc}x".to_string()));
    assert_eq!(bearer_token("a\u{3000}b\u{a0}c"), Some("b".to_string()));
    assert_eq!(bearer_token("a\u{200B}b c"), Some("c".to_string()));
}

#[test]
fn token_agrees_with_splitting_at_white_space() {
    let samples = [
        "",
        "Bearer",
        "Bearer tok",
        "Bearer  tok  more",
        "\tBearer\ttok",
        " a",
        "a ",
        " a b ",
        "\u{2003}x\u{2003}y\u{2003}",
        "\u{85}\u{1680}p\u{2028}q\u{2029}r",
        "a\u{feff}b c",
        "\u{b}\u{c}one\rtwo",
    ];
    for s in samples {
        assert_eq!(bearer_token(s), s.split_whitespace().nth(1).map(|w| w.to_string()), "{:?}", s);
    }
}
