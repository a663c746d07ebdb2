use rsphate::text::{
    chars_of, joined, drop_first_chars, final_segment, is_whitespace, same_text, scan_run,
    split_tokens,
};

#[test]
fn whitespace_is_what_the_standard_library_calls_whitespace() {
    for code in 0..=0x10FFFFu32 {
        if let Some(c) = char::from_u32(code) {
            assert_eq!(is_whitespace(c), c.is_whitespace(), "U+{:04X}", code);
        }
    }
}

#[test]
fn some_whitespace_characters() {
    for c in [' ', '\t', '\n', '\r', '\u{0B}', '\u{0C}', '\u{85}', '\u{A0}', '\u{3000}'] {
        assert!(is_whitespace(c));
    }
    for c in ['a', '^', '/', '\0', '\u{200B}', '\u{FEFF}', '_'] {
        assert!(!is_whitespace(c));
    }
}

#[test]
fn chars_of_lists_the_characters() {
    assert_eq!(chars_of(""), Vec::<char>::new());
    assert_eq!(chars_of("a é\u{1F980}"), vec!['a', ' ', 'é', '\u{1F980}']);
}

#[test]
fn same_text_compares_by_content() {
    assert!(same_text("", ""));
    assert!(same_text("git", "git"));
    assert!(!same_text("git", "Git"));
    assert!(!same_text("git", "git "));
    assert!(!same_text("git", "gi"));
}

#[test]
fn joined_keeps_the_order() {
    assert_eq!(joined("unknown query: ", "x y"), "unknown query: x y");
    assert_eq!(joined("", "b"), "b");
    assert_eq!(joined("a", ""), "a");
}

#[test]
fn scan_run_stops_where_the_kind_changes() {
    let chars = chars_of("  ab \tc");
    assert_eq!(scan_run(&chars, 0, true), 2);
    assert_eq!(scan_run(&chars, 0, false), 0);
    assert_eq!(scan_run(&chars, 2, false), 4);
    assert_eq!(scan_run(&chars, 4, true), 6);
    assert_eq!(scan_run(&chars, 6, false), 7);
    assert_eq!(scan_run(&chars, 7, false), 7);
    assert_eq!(scan_run(&chars, 7, true), 7);
}

#[test]
fn tokens_are_the_runs_between_whitespace() {
    assert_eq!(split_tokens("codeberg Phate6660/musinfo"), vec!["codeberg", "Phate6660/musinfo"]);
    assert_eq!(split_tokens("  a \t b\n\nc  "), vec!["a", "b", "c"]);
    assert_eq!(split_tokens("one"), vec!["one"]);
    assert_eq!(split_tokens(""), Vec::<String>::new());
    assert_eq!(split_tokens(" \t\r\n"), Vec::<String>::new());
    assert_eq!(split_tokens("é\u{3000}ü\u{A0}\u{1F980}"), vec!["é", "ü", "\u{1F980}"]);
}

#[test]
fn tokens_agree_with_split_whitespace() {
    for text in [
        "",
        " ",
        "a",
        " a",
        "a ",
        "a b",
        "github  Phate6660/rsfetch",
        "\"quoted text\" stays two tokens",
        "tabs\tand\nnewlines\r\nand\u{2003}wide spaces",
        "   lead and trail   ",
    ] {
        let expected: Vec<String> = text.split_whitespace().map(|t| t.to_string()).collect();
        assert_eq!(split_tokens(text), expected, "{:?}", text);
    }
}

#[test]
fn drop_first_chars_counts_characters() {
    assert_eq!(drop_first_chars("file:///x/y/z", 7), "/x/y/z");
    assert_eq!(drop_first_chars("ééé/x", 3), "/x");
    assert_eq!(drop_first_chars("abc", 0), "abc");
    assert_eq!(drop_first_chars("abc", 3), "");
    assert_eq!(drop_first_chars("abc", 4), "");
    assert_eq!(drop_first_chars("", 7), "");
}

#[test]
fn final_segment_follows_the_last_slash() {
    assert_eq!(final_segment("/x/y/z.jpg"), "z.jpg");
    assert_eq!(final_segment("z.jpg"), "z.jpg");
    assert_eq!(final_segment("/x/y/"), "");
    assert_eq!(final_segment("/"), "");
    assert_eq!(final_segment(""), "");
    assert_eq!(final_segment("a/é/ü.jpg"), "ü.jpg");
    assert_eq!(final_segment("a\\b/c\\d"), "c\\d");
}
