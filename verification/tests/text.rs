use pa::text::{
    file_extension, is_ascii_white_space, is_white_space, pad_right, same_text, signed_text,
    split_ascii_whitespace, trim, unsigned_text,
};

#[test]
fn white_space_is_that_of_char() {
    for code in 0..=0x10ffffu32 {
        if let Some(c) = char::from_u32(code) {
            assert_eq!(is_white_space(c), c.is_whitespace(), "{code:x}");
            assert_eq!(is_ascii_white_space(c), c.is_ascii_whitespace(), "{code:x}");
        }
    }
}

#[test]
fn trim_takes_white_space_off_both_ends() {
    assert_eq!(trim(" \t a b \r\n"), "a b");
    assert_eq!(trim(""), "");
    assert_eq!(trim(" \n\t "), "");
    assert_eq!(trim("x"), "x");
    assert_eq!(trim("\u{3000}\u{e9}\u{a0}"), "\u{e9}");
    for s in ["", " ", "a", " a", "a ", "  a  b  ", "\u{b}a\u{b}", "\u{200b}a\u{200b}", "\u{85}\u{2028}z"] {
        assert_eq!(trim(s), s.trim());
    }
}

#[test]
fn trimming_twice_is_trimming_once() {
    assert_eq!(trim(trim("  a line\n")), "a line");
}

#[test]
fn words_are_cut_at_ascii_white_space() {
    assert_eq!(split_ascii_whitespace("echo hello  world"), vec!["echo", "hello", "world"]);
    assert_eq!(split_ascii_whitespace("\tls\n-l\r\u{c}/ "), vec!["ls", "-l", "/"]);
    assert!(split_ascii_whitespace("").is_empty());
    assert!(split_ascii_whitespace(" \n ").is_empty());
    // Neither the vertical tab nor white space beyond ASCII cuts.
    assert_eq!(split_ascii_whitespace("a\u{b}b \u{a0}c"), vec!["a\u{b}b", "\u{a0}c"]);
    for s in ["", "a", " a b ", "\u{e9}t\u{e9} \u{1f600}x", "a\u{c}b\u{b}c"] {
        let expected: Vec<&str> = s.split_ascii_whitespace().collect();
        assert_eq!(split_ascii_whitespace(s), expected);
    }
}

#[test]
fn joined_words_come_back() {
    let words = vec!["sh", "-c", "true"];
    assert_eq!(split_ascii_whitespace(&words.join(" ")), words);
}

#[test]
fn extension_is_behind_the_last_dot() {
    assert_eq!(file_extension("pa.json"), "json");
    assert_eq!(file_extension("a.b/c.tar.toml"), "toml");
    assert_eq!(file_extension("noext"), "noext");
    assert_eq!(file_extension("ends."), "");
    assert_eq!(file_extension(""), "");
    for s in ["", ".", "a.b", "a..b", "\u{e9}.\u{e9}", "./pa"] {
        assert_eq!(file_extension(s), s.split('.').last().unwrap_or(""));
    }
}

#[test]
fn numbers_in_decimal() {
    for n in [0u64, 7, 10, 99, 100, 1234567890, u64::MAX] {
        assert_eq!(unsigned_text(n), n.to_string());
    }
    for n in [0i32, 1, -1, 127, -255, i32::MAX, i32::MIN] {
        assert_eq!(signed_text(n), n.to_string());
    }
}

#[test]
fn padding_fills_on_the_right() {
    assert_eq!(pad_right("ab", 5), "ab   ");
    assert_eq!(pad_right("\u{e9}", 3), "\u{e9}  ");
    assert_eq!(pad_right("abcdef", 3), "abcdef");
    assert_eq!(pad_right("abc", 3), "abc");
    assert_eq!(pad_right("", 0), "");
}

#[test]
fn same_text_compares_all_of_it() {
    assert!(same_text("yml", "yml"));
    assert!(!same_text("yml", "yaml"));
    assert!(!same_text("JSON", "json"));
}
