use blaze_terminal::sorting::sort_names;
use blaze_terminal::sorting::sort_unique;
use blaze_terminal::sorting::str_lt;
use blaze_terminal::text::chars_of;
use blaze_terminal::text::followed_by;
use blaze_terminal::text::contains_chars;
use blaze_terminal::text::has_prefix;
use blaze_terminal::text::join_from;
use blaze_terminal::text::push_decimal;
use blaze_terminal::text::split_lines;
use blaze_terminal::text::split_whitespace;
use blaze_terminal::text::str_eq;
use blaze_terminal::text::string_of;
use blaze_terminal::text::tail_of;
use blaze_terminal::text::trim;

fn strings(items: &[&str]) -> Vec<String> {
    items.iter().map(|s| s.to_string()).collect()
}

#[test]
fn chars_round_trip() {
    let chars = chars_of("a⚡b");
    assert_eq!(chars, vec!['a', '⚡', 'b']);
    assert_eq!(string_of(&chars, 0, 3), "a⚡b");
    assert_eq!(string_of(&chars, 1, 2), "⚡");
    assert_eq!(string_of(&chars, 2, 2), "");
}

#[test]
fn str_eq_compares_contents() {
    assert!(str_eq("", ""));
    assert!(str_eq("echo", "echo"));
    assert!(!str_eq("echo", "ech"));
    assert!(!str_eq("ech", "echo"));
    assert!(!str_eq("echo", "echO"));
}

#[test]
fn trim_matches_the_standard_library() {
    for s in ["", "   ", " a b ", "\t\nx\r\n", "x", "\u{a0}é \u{3000}", " a  "] {
        assert_eq!(trim(s), s.trim());
    }
}

#[test]
fn join_from_puts_the_separator_between_parts() {
    let parts = strings(&["cd", "My", "Documents"]);
    assert_eq!(join_from(&parts, 1, " "), "My Documents");
    assert_eq!(join_from(&parts, 0, ", "), "cd, My, Documents");
    assert_eq!(join_from(&parts, 2, " "), "Documents");
    assert_eq!(join_from(&parts, 3, " "), "");
}

#[test]
fn concat_and_tail() {
    assert_eq!(followed_by("cd: ", "x"), "cd: x");
    assert_eq!(tail_of(&strings(&["a", "b", "c"])), strings(&["b", "c"]));
    assert!(tail_of(&strings(&["a"])).is_empty());
    assert!(tail_of(&strings(&[])).is_empty());
}

#[test]
fn split_lines_matches_the_standard_library() {
    for s in [
        "",
        "\n",
        "a",
        "a\n",
        "a\nb",
        "a\r\nb\r\n",
        "a\n\nb",
        "a\r",
        "a\rb\n",
        "\r\n",
        "\r\r\n",
        "x\n\r\ny",
        "tail\r",
    ] {
        let expected: Vec<String> = s.lines().map(|l| l.to_string()).collect();
        assert_eq!(split_lines(s), expected, "for {s:?}");
    }
}

#[test]
fn split_whitespace_matches_the_standard_library() {
    for s in ["", "  ", "a", " a  b\tc\n", "ls -la /tmp ", "x\u{a0}y"] {
        let expected: Vec<String> = s.split_whitespace().map(|l| l.to_string()).collect();
        assert_eq!(split_whitespace(s), expected, "for {s:?}");
    }
}

#[test]
fn has_prefix_and_contains() {
    let text = chars_of("hello world");
    assert!(has_prefix(&text, &chars_of("")));
    assert!(has_prefix(&text, &chars_of("hello")));
    assert!(!has_prefix(&text, &chars_of("world")));
    assert!(!has_prefix(&chars_of("he"), &chars_of("hello")));
    assert!(contains_chars(&text, &chars_of("")));
    assert!(contains_chars(&text, &chars_of("o w")));
    assert!(contains_chars(&text, &chars_of("world")));
    assert!(contains_chars(&text, &chars_of("hello world")));
    assert!(!contains_chars(&text, &chars_of("worlds")));
    assert!(!contains_chars(&chars_of(""), &chars_of("a")));
    assert!(contains_chars(&chars_of(""), &chars_of("")));
}

#[test]
fn push_decimal_writes_decimal_digits() {
    for n in [0u64, 1, 9, 10, 15, 99, 100, 12345, 1048576, u64::MAX] {
        let mut text = String::from("n=");
        push_decimal(&mut text, n);
        assert_eq!(text, format!("n={n}"));
    }
}

#[test]
fn str_lt_orders_like_strings() {
    let samples = ["", "a", "A", "ab", "abc", "b", "é", "z", "⚡", "a/", "a0"];
    for a in samples {
        for b in samples {
            assert_eq!(str_lt(a, b), a < b, "for {a:?} and {b:?}");
        }
    }
}

#[test]
fn sort_names_sorts_and_keeps_duplicates() {
    let names = strings(&["pear", "apple", "fig", "apple", "Zed", ""]);
    let mut expected = names.clone();
    expected.sort();
    assert_eq!(sort_names(names), expected);
    assert!(sort_names(Vec::new()).is_empty());
}

#[test]
fn sort_unique_sorts_and_drops_duplicates() {
    let names = strings(&["pear", "apple", "fig", "apple", "pear", "date"]);
    assert_eq!(sort_unique(names), strings(&["apple", "date", "fig", "pear"]));
    assert!(sort_unique(Vec::new()).is_empty());
}

#[test]
fn whitespace_is_the_white_space_property() {
    let listed = |c: char| {
        let code = c as u32;
        (0x0009..=0x000D).contains(&code)
            || matches!(code, 0x0020 | 0x0085 | 0x00A0 | 0x1680 | 0x2028 | 0x2029 | 0x202F)
            || (0x2000..=0x200A).contains(&code)
            || matches!(code, 0x205F | 0x3000)
    };
    let mut text = String::new();
    for c in (0u32..=0x10FFFF).filter_map(char::from_u32) {
        text.clear();
        text.push(c);
        assert_eq!(trim(&text).is_empty(), listed(c), "for U+{:04X}", c as u32);
    }
}
