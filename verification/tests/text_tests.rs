use ai_commit::text::{
    contains, is_blank, replace, str_eq, str_lt, strip_end, strip_start, to_ascii_lowercase, trim,
};

#[test]
fn trim_matches_std() {
    for s in ["", "  a b  ", "\t\nx\r\n", "\u{3000}y\u{a0}", "none"] {
        assert_eq!(trim(s), s.trim(), "text {s:?}");
        assert_eq!(is_blank(s), s.trim().is_empty());
    }
}

#[test]
fn lowercase_is_ascii_only() {
    assert_eq!(to_ascii_lowercase("OpenAI ÉÀ"), "openai ÉÀ");
}

#[test]
fn contains_and_replace_match_std() {
    let cases = [("hello world", "o w"), ("aaa", "aa"), ("", "x"), ("abc", ""), ("{diff}{diff}", "{diff}")];
    for (s, p) in cases {
        assert_eq!(contains(s, p), s.contains(p), "{s:?} {p:?}");
        if !p.is_empty() {
            assert_eq!(replace(s, p, "<>"), s.replace(p, "<>"), "{s:?} {p:?}");
        }
    }
}

#[test]
fn strip_repeated_characters() {
    assert_eq!(strip_end("a///", '/'), "a");
    assert_eq!(strip_start("//a/", '/'), "a/");
    assert_eq!(strip_end("", '/'), "");
}

#[test]
fn order_of_texts_matches_std() {
    let words = ["", "a", "ab", "b", "B", "é", "aa", "a\u{0}"];
    for x in words {
        for y in words {
            assert_eq!(str_lt(x, y), x < y, "{x:?} < {y:?}");
            assert_eq!(str_eq(x, y), x == y);
        }
    }
}
