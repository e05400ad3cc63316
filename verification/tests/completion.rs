use blaze_terminal::allowlist::FsMode;
use blaze_terminal::allowlist::Platform;
use blaze_terminal::allowlist::ShellConfig;
use blaze_terminal::completion::completion_dir;
use blaze_terminal::completion::tab_complete;
use blaze_terminal::completion::DirEntry;
use blaze_terminal::paths::resolve_in_dir;

fn unix() -> ShellConfig {
    ShellConfig { platform: Platform::Unix, fs_mode: FsMode::Standard }
}

fn windows() -> ShellConfig {
    ShellConfig { platform: Platform::Windows, fs_mode: FsMode::Standard }
}

fn entry(name: &str, is_dir: bool) -> DirEntry {
    DirEntry { name: name.to_string(), is_dir }
}

fn listing() -> Vec<DirEntry> {
    vec![
        entry("src", true),
        entry("README.md", false),
        entry("readme.txt", false),
        entry("Cargo.toml", false),
        entry("scripts", true),
        entry("src", true),
    ]
}

fn some(text: &str) -> Option<String> {
    Some(text.to_string())
}

#[test]
fn completing_ec_gives_echo() {
    assert_eq!(tab_complete(unix(), "ec", None, 0), some("echo"));
    assert_eq!(tab_complete(unix(), "ec", None, 1), some("echo"));
    assert_eq!(tab_complete(unix(), "EC", None, 5), some("echo"));
}

#[test]
fn command_candidates_cycle_in_sorted_order() {
    let expected = ["cat", "cd", "clear", "cls", "curl"];
    for round in 0..3 {
        for (i, name) in expected.iter().enumerate() {
            assert_eq!(tab_complete(unix(), "c", None, round * expected.len() + i), some(name));
        }
    }
}

#[test]
fn command_candidates_follow_the_allowlist() {
    let unsafe_fs = ShellConfig { platform: Platform::Unix, fs_mode: FsMode::UnsafeFs };
    assert_eq!(tab_complete(unsafe_fs, "m", None, 0), some("mkdir"));
    assert_eq!(tab_complete(unsafe_fs, "m", None, 1), some("mv"));
    assert_eq!(tab_complete(unix(), "m", None, 0), None);
    assert_eq!(tab_complete(unix(), "if", None, 0), some("ifconfig"));
    assert_eq!(tab_complete(windows(), "if", None, 0), None);
    assert_eq!(tab_complete(windows(), "ip", None, 0), some("ip"));
    assert_eq!(tab_complete(windows(), "ip", None, 1), some("ipconfig"));
    assert_eq!(tab_complete(windows(), "t", None, 0), some("type"));
}

#[test]
fn command_completion_lists_every_name_once() {
    let mut seen = Vec::new();
    let mut presses = 0;
    loop {
        let name = tab_complete(windows(), " e", None, presses).unwrap();
        if seen.contains(&name) {
            break;
        }
        seen.push(name);
        presses += 1;
    }
    assert_eq!(seen, vec!["echo", "exit"]);
}

#[test]
fn nothing_completes_without_a_word_or_a_match() {
    assert_eq!(tab_complete(unix(), "", None, 0), None);
    assert_eq!(tab_complete(unix(), "   ", Some(&listing()), 0), None);
    assert_eq!(tab_complete(unix(), "zzz", None, 0), None);
    assert_eq!(tab_complete(unix(), "cat nothing", Some(&listing()), 0), None);
    assert_eq!(tab_complete(unix(), "cat ", Some(&Vec::new()), 0), None);
}

#[test]
fn unreadable_directory_completes_nothing() {
    assert_eq!(tab_complete(unix(), "cat R", None, 0), None);
    assert_eq!(tab_complete(unix(), "cat ", None, 3), None);
}

#[test]
fn path_completion_matches_whatever_the_case() {
    let entries = listing();
    assert_eq!(tab_complete(unix(), "cat re", Some(&entries), 0), some("cat README.md"));
    assert_eq!(tab_complete(unix(), "cat re", Some(&entries), 1), some("cat readme.txt"));
    assert_eq!(tab_complete(unix(), "cat re", Some(&entries), 2), some("cat README.md"));
    assert_eq!(tab_complete(unix(), "cat CARGO", Some(&entries), 0), some("cat Cargo.toml"));
}

#[test]
fn path_completion_marks_directories() {
    let entries = listing();
    assert_eq!(tab_complete(unix(), "ls s", Some(&entries), 0), some("ls scripts/"));
    assert_eq!(tab_complete(unix(), "ls s", Some(&entries), 1), some("ls src/"));
    assert_eq!(tab_complete(unix(), "ls s", Some(&entries), 2), some("ls scripts/"));
    assert_eq!(tab_complete(windows(), "dir s", Some(&entries), 1), some("dir src\\"));
}

#[test]
fn trailing_whitespace_of_any_kind_starts_a_new_argument() {
    let entries = listing();
    for gap in ["\t", " ", "\u{a0}", " \t"] {
        let input = format!("ls{gap}");
        assert_eq!(
            tab_complete(unix(), &input, Some(&entries), 0),
            Some(format!("{input}Cargo.toml"))
        );
        assert_eq!(tab_complete(unix(), &input, None, 0), None);
        assert_eq!(completion_dir(&input, "/home"), some("/home"));
        let two = format!("cat a{gap}");
        assert_eq!(
            tab_complete(unix(), &two, Some(&entries), 4),
            Some(format!("{two}src/"))
        );
    }
    assert_eq!(tab_complete(unix(), "ls", Some(&entries), 0), some("ls"));
}

#[test]
fn trailing_space_starts_a_new_argument() {
    let entries = listing();
    let expected = ["Cargo.toml", "README.md", "readme.txt", "scripts/", "src/"];
    for (i, name) in expected.iter().enumerate() {
        assert_eq!(
            tab_complete(unix(), "cat ", Some(&entries), i),
            Some(format!("cat {name}"))
        );
    }
    assert_eq!(tab_complete(unix(), "cat a ", Some(&entries), 5), some("cat a Cargo.toml"));
}

#[test]
fn path_completion_keeps_the_directory_portion() {
    let entries = vec![entry("main.rs", false), entry("lib.rs", false)];
    assert_eq!(
        tab_complete(unix(), "cat  src/ma", Some(&entries), 0),
        some("cat  src/main.rs")
    );
    assert_eq!(
        tab_complete(windows(), "type src\\sub/l", Some(&entries), 0),
        some("type src\\sub/lib.rs")
    );
    assert_eq!(
        tab_complete(unix(), "cat a b/", Some(&entries), 1),
        some("cat a b/main.rs")
    );
}

#[test]
fn completion_dir_is_the_directory_portion_or_the_working_directory() {
    assert_eq!(completion_dir("", "/home"), None);
    assert_eq!(completion_dir("ec", "/home"), None);
    assert_eq!(completion_dir(" ec", "/home"), None);
    assert_eq!(completion_dir("cat ", "/home"), some("/home"));
    assert_eq!(completion_dir("cat re", "/home"), some("/home"));
    assert_eq!(completion_dir("cat src/ma", "/home"), Some(resolve_in_dir("/home", "src/")));
    assert_eq!(completion_dir("cat a src\\x/y", "/home"), Some(resolve_in_dir("/home", "src\\x/")));
    assert_eq!(completion_dir("cat /etc/ho", "/home"), Some(resolve_in_dir("/home", "/etc/")));
}
