use hartlab_protocol::text::{
    first_token, lower_chars, str_chars, strip_dashes_chars, strip_digits_chars, take_word_chars, trim_chars, trim_str,
    unescape_chars,
};

fn chars(s: &str) -> Vec<char> {
    s.chars().collect()
}

#[test]
fn str_chars_gives_the_characters() {
    assert_eq!(str_chars("aé\u{3000}"), vec!['a', 'é', '\u{3000}']);
}

#[test]
fn trimming_matches_std() {
    for s in ["", "  ", " a b ", "\u{a0}x\u{2028}", "\u{85}y\t", "\u{200b}z"] {
        assert_eq!(trim_chars(&chars(s)), chars(s.trim()), "{s:?}");
        assert_eq!(trim_str(s), s.trim(), "{s:?}");
    }
}

#[test]
fn first_token_matches_split_whitespace() {
    for s in ["", "  ", " info threads", "bt", "\u{2003}step\u{2003}2"] {
        let expected = s.split_whitespace().next().unwrap_or("");
        assert_eq!(first_token(&chars(s)), chars(expected), "{s:?}");
    }
}

#[test]
fn ascii_lowercase_only() {
    assert_eq!(lower_chars(&chars("ABC-xyzÉ")), chars("abc-xyzÉ"));
}

#[test]
fn stripping() {
    assert_eq!(strip_dashes_chars(&chars("--a-b")), chars("a-b"));
    assert_eq!(strip_digits_chars(&chars("12-3a")), chars("-3a"));
    assert_eq!(take_word_chars(&chars("ab c")), chars("ab"));
    assert_eq!(take_word_chars(&chars(" ab")), chars(""));
}

#[test]
fn unescaping() {
    assert_eq!(unescape_chars(&chars(r#"a\"b\\"c"#), '"'), chars(r#"a"b\"c"#));
    assert_eq!(unescape_chars(&chars(r"\'x"), '\''), chars("'x"));
    assert_eq!(unescape_chars(&chars("plain"), '"'), chars("plain"));
}
