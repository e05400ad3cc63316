use blaze_terminal::history::history_record;
use blaze_terminal::history::load_history;

#[test]
fn load_history_of_an_unreadable_file_is_empty() {
    assert!(load_history(None, 100).is_empty());
}

#[test]
fn load_history_keeps_the_most_recent_entries_in_order() {
    let content = "one\ntwo\nthree\nfour\n";
    assert_eq!(load_history(Some(content), 2), vec!["three", "four"]);
    assert_eq!(load_history(Some(content), 4), vec!["one", "two", "three", "four"]);
    assert_eq!(load_history(Some(content), 10), vec!["one", "two", "three", "four"]);
    assert!(load_history(Some(content), 0).is_empty());
}

#[test]
fn load_history_skips_empty_lines() {
    let content = "\none\n\n\r\ntwo\n\nthree";
    assert_eq!(load_history(Some(content), 2), vec!["two", "three"]);
    assert_eq!(load_history(Some(content), 5), vec!["one", "two", "three"]);
    assert!(load_history(Some(""), 5).is_empty());
    assert!(load_history(Some("\n\n"), 5).is_empty());
}

#[test]
fn load_history_matches_the_tail_of_the_lines() {
    let content = "a\nb b\n\nc\r\nd\n";
    for limit in 0..6 {
        let all: Vec<String> =
            content.lines().filter(|l| !l.is_empty()).map(|l| l.to_string()).collect();
        let skip = all.len().saturating_sub(limit);
        assert_eq!(load_history(Some(content), limit), all[skip..].to_vec());
    }
}

#[test]
fn history_record_is_the_command_and_a_line_feed() {
    assert_eq!(history_record("ls -la"), "ls -la\n");
    assert_eq!(history_record(""), "\n");
}

#[test]
fn history_round_trips_through_records() {
    let mut file = String::new();
    for cmd in ["ls", "echo hi", "pwd"] {
        file.push_str(&history_record(cmd));
    }
    assert_eq!(load_history(Some(&file), 2), vec!["echo hi", "pwd"]);
}
