use spotifyrics::text::{
    blank, byte_len, chars_of, is_whitespace, join, push_dashes, replace_spaces, trim,
};

#[test]
fn whitespace_agrees_with_std_on_every_char() {
    for code in 0u32..=0x10FFFF {
        if let Some(c) = char::from_u32(code) {
            assert_eq!(is_whitespace(c), c.is_whitespace(), "U+{:04X}", code);
        }
    }
}

#[test]
fn whitespace_knows_the_common_cases() {
    assert!(is_whitespace(' '));
    assert!(is_whitespace('\t'));
    assert!(is_whitespace('\n'));
    assert!(is_whitespace('\r'));
    assert!(is_whitespace('\u{a0}'));
    assert!(is_whitespace('\u{3000}'));
    assert!(!is_whitespace('a'));
    assert!(!is_whitespace('-'));
    assert!(!is_whitespace('\u{200b}'));
    assert!(!is_whitespace('\0'));
}

#[test]
fn trim_removes_surrounding_whitespace_only() {
    assert_eq!(trim(" Drake "), "Drake");
    assert_eq!(trim("Drake"), "Drake");
    assert_eq!(trim("\t Linkin Park\r\n"), "Linkin Park");
    assert_eq!(trim("  a  b  "), "a  b");
    assert_eq!(trim("\u{a0}caf\u{e9}\u{3000}"), "caf\u{e9}");
}

#[test]
fn trim_of_blank_text_is_empty() {
    assert_eq!(trim(""), "");
    assert_eq!(trim(" "), "");
    assert_eq!(trim(" \t\n "), "");
}

#[test]
fn trim_agrees_with_std() {
    let samples = [
        "",
        " ",
        "x",
        " x",
        "x ",
        " x y ",
        "\n\nline one\nline two\n",
        "\u{2003}wide\u{2003}",
        "\u{200b}zero width\u{200b}",
        "  \u{1f3b5} song \u{1f3b5}  ",
    ];
    for sample in samples {
        assert_eq!(trim(sample), sample.trim(), "{:?}", sample);
    }
}

#[test]
fn trim_is_idempotent() {
    let once = trim("  twice  told ");
    assert_eq!(trim(&once), once);
}

#[test]
fn blank_means_nothing_but_whitespace() {
    assert!(blank(""));
    assert!(blank(" "));
    assert!(blank("\n\t \u{a0}"));
    assert!(!blank("a"));
    assert!(!blank("  a  "));
    assert!(!blank(" ."));
}

#[test]
fn chars_of_lists_every_character() {
    assert_eq!(chars_of(""), Vec::<char>::new());
    assert_eq!(chars_of("ab c"), vec!['a', 'b', ' ', 'c']);
    assert_eq!(chars_of("h\u{e9}!"), vec!['h', '\u{e9}', '!']);
}

#[test]
fn join_puts_the_separator_between_neighbours() {
    let none: Vec<String> = Vec::new();
    assert_eq!(join(&none, ", "), "");
    assert_eq!(join(&vec!["Drake".to_string()], ", "), "Drake");
    assert_eq!(
        join(&vec!["Drake".to_string(), "Future".to_string()], ", "),
        "Drake, Future"
    );
    assert_eq!(
        join(
            &vec!["a".to_string(), "".to_string(), "c".to_string()],
            "+"
        ),
        "a++c"
    );
}

#[test]
fn join_agrees_with_std() {
    let parts = vec![
        "Linkin Park".to_string(),
        "Jay-Z".to_string(),
        " ".to_string(),
        "".to_string(),
    ];
    assert_eq!(join(&parts, ", "), parts.join(", "));
    assert_eq!(join(&parts, ""), parts.join(""));
}

#[test]
fn replace_spaces_writes_a_plus_for_each_space() {
    assert_eq!(replace_spaces(""), "");
    assert_eq!(replace_spaces("Numb"), "Numb");
    assert_eq!(replace_spaces("In the End"), "In+the+End");
    assert_eq!(replace_spaces("  a "), "++a+");
    assert_eq!(replace_spaces("a+b c"), "a+b+c");
}

#[test]
fn replace_spaces_leaves_other_whitespace() {
    assert_eq!(replace_spaces("a\tb\nc\u{a0}d"), "a\tb\nc\u{a0}d");
}

#[test]
fn push_dashes_appends_that_many() {
    let mut line = String::from("+");
    push_dashes(&mut line, 0);
    assert_eq!(line, "+");
    push_dashes(&mut line, 5);
    assert_eq!(line, "+-----");
    push_dashes(&mut line, 2);
    assert_eq!(line, "+-------");
}

#[test]
fn byte_len_counts_bytes() {
    assert_eq!(byte_len(""), 0);
    assert_eq!(byte_len("Numb"), 4);
    assert_eq!(byte_len("Linkin Park"), 11);
    assert_eq!(byte_len("caf\u{e9}"), 5);
    assert_eq!(byte_len("\u{1f3b5}"), 4);
}
