use blaze_terminal::allowlist::FsMode;
use blaze_terminal::allowlist::Platform;
use blaze_terminal::allowlist::ShellConfig;
use blaze_terminal::buffer::MAX_LINES;
use blaze_terminal::executor::stream_unix_command;
use blaze_terminal::executor::StreamEvent;
use blaze_terminal::session::CdProbe;
use blaze_terminal::session::Dispatch;
use blaze_terminal::session::Key;
use blaze_terminal::session::Session;
use blaze_terminal::state::LineType;
use blaze_terminal::state::TerminalLine;
use blaze_terminal::translator::ExecutionRequest;
use blaze_terminal::translator::ExternalPlan;
use blaze_terminal::translator::FsRequest;
use blaze_terminal::translator::WindowsPlan;

fn unix() -> ShellConfig {
    ShellConfig { platform: Platform::Unix, fs_mode: FsMode::Standard }
}

fn windows() -> ShellConfig {
    ShellConfig { platform: Platform::Windows, fs_mode: FsMode::Standard }
}

fn fresh(config: ShellConfig) -> Session {
    Session::new(config, "/home/me".to_string(), Vec::new())
}

fn line(content: &str, line_type: LineType) -> TerminalLine {
    TerminalLine { content: content.to_string(), line_type }
}

fn strings(items: &[&str]) -> Vec<String> {
    items.iter().map(|s| s.to_string()).collect()
}

fn banner() -> Vec<TerminalLine> {
    vec![
        line("⚡ Blaze Terminal v0.1.0", LineType::System),
        line("Type 'help' for available commands.", LineType::System),
        line("", LineType::System),
    ]
}

#[test]
fn new_session_shows_the_banner() {
    let session = Session::new(unix(), "/tmp".to_string(), strings(&["ls"]));
    assert_eq!(session.lines(), &banner());
    assert_eq!(session.current_dir(), "/tmp");
    assert_eq!(session.history(), &strings(&["ls"]));
    assert_eq!(session.config(), unix());
}

#[test]
fn blank_line_changes_nothing() {
    let mut session = fresh(unix());
    assert_eq!(session.submit(""), Dispatch::Ignored);
    assert_eq!(session.submit("  \t "), Dispatch::Ignored);
    assert_eq!(session.lines(), &banner());
    assert!(session.history().is_empty());
}

#[test]
fn submitted_command_is_trimmed_recorded_and_echoed() {
    let mut session = fresh(unix());
    assert_eq!(session.submit("  pwd  "), Dispatch::Handled);
    assert_eq!(session.history(), &strings(&["pwd"]));
    let mut expected = banner();
    expected.push(line("/home/me > pwd", LineType::Command));
    expected.push(line("/home/me", LineType::Output));
    assert_eq!(session.lines(), &expected);
}

#[test]
fn cd_without_arguments_echoes_the_working_directory() {
    let mut session = fresh(unix());
    assert_eq!(session.submit("cd"), Dispatch::Handled);
    assert_eq!(session.current_dir(), "/home/me");
    let lines = session.lines();
    assert_eq!(lines[lines.len() - 1], line("/home/me", LineType::Output));
    assert_eq!(lines.len(), 5);
}

#[test]
fn cd_with_a_target_asks_for_a_probe() {
    let mut session = fresh(unix());
    assert_eq!(session.submit("cd my docs"), Dispatch::ChangeDir("my docs".to_string()));
    let lines = session.lines();
    assert_eq!(lines.len(), 4);
    assert_eq!(lines[3], line("/home/me > cd my docs", LineType::Command));
}

#[test]
fn cd_into_a_directory_updates_the_working_directory() {
    let mut session = fresh(windows());
    let before = session.lines().clone();
    session.complete_cd("docs", CdProbe::Directory("\\\\?\\C:\\Users\\me\\docs".to_string()));
    assert_eq!(session.current_dir(), "C:\\Users\\me\\docs");
    assert_eq!(session.lines(), &before);
    session.complete_cd("..", CdProbe::Directory("/home".to_string()));
    assert_eq!(session.current_dir(), "/home");
}

#[test]
fn cd_into_a_missing_path_reports_path_and_reason() {
    let mut session = fresh(unix());
    session.complete_cd("nowhere", CdProbe::Failed("No such file or directory (os error 2)".to_string()));
    assert_eq!(session.current_dir(), "/home/me");
    let lines = session.lines();
    assert_eq!(
        lines[lines.len() - 1],
        line("cd: nowhere: No such file or directory (os error 2)", LineType::Error)
    );
    assert_eq!(lines.len(), 4);
}

#[test]
fn cd_into_a_file_reports_not_a_directory() {
    let mut session = fresh(unix());
    session.complete_cd("notes.txt", CdProbe::NotDirectory);
    assert_eq!(session.current_dir(), "/home/me");
    let lines = session.lines();
    assert_eq!(lines[lines.len() - 1], line("Not a directory: notes.txt", LineType::Error));
}

#[test]
fn clear_empties_the_transcript() {
    let mut session = fresh(unix());
    session.submit("pwd");
    assert_eq!(session.submit("clear"), Dispatch::Handled);
    assert!(session.lines().is_empty());
    session.submit("pwd");
    assert_eq!(session.submit("CLS"), Dispatch::Handled);
    assert!(session.lines().is_empty());
    assert_eq!(session.history(), &strings(&["pwd", "clear", "pwd", "CLS"]));
}

#[test]
fn help_appends_the_help_text() {
    let mut session = fresh(unix());
    assert_eq!(session.submit("help"), Dispatch::Handled);
    let lines = session.lines();
    assert_eq!(lines.len(), 3 + 1 + 9);
    assert_eq!(lines[3], line("/home/me > help", LineType::Command));
    assert_eq!(lines[4], line("⚡ Blaze Terminal — Commands:", LineType::System));
}

#[test]
fn exit_ends_the_session() {
    let mut session = fresh(unix());
    assert_eq!(session.submit("exit"), Dispatch::Exit);
    assert_eq!(session.lines().len(), 4);
}

#[test]
fn denied_command_gets_one_error_line() {
    let mut session = fresh(unix());
    assert_eq!(session.submit("Sudo reboot"), Dispatch::Handled);
    let lines = session.lines();
    assert_eq!(lines.len(), 5);
    assert_eq!(
        lines[4],
        line(
            "Command 'sudo' is not allowed. Type 'help' for a list of available commands.",
            LineType::Error
        )
    );
}

#[test]
fn allowed_command_is_streamed_on_unix() {
    let mut session = fresh(unix());
    let next = session.submit("Grep -n \"two words\" file.txt");
    assert_eq!(
        next,
        Dispatch::External(ExternalPlan::Stream(ExecutionRequest {
            program: "grep".to_string(),
            args: strings(&["-n", "two words", "file.txt"]),
            working_dir: "/home/me".to_string(),
        }))
    );
    assert_eq!(session.lines().len(), 4);
}

#[test]
fn allowed_command_is_planned_on_windows() {
    let mut session = Session::new(windows(), "C:\\work".to_string(), Vec::new());
    let next = session.submit("ip /all");
    assert_eq!(
        next,
        Dispatch::External(ExternalPlan::Windows(WindowsPlan::Spawn(ExecutionRequest {
            program: "ipconfig".to_string(),
            args: strings(&["/all"]),
            working_dir: "C:\\work".to_string(),
        })))
    );
    match session.submit("cat") {
        Dispatch::External(ExternalPlan::Windows(WindowsPlan::Answer(lines))) => {
            assert_eq!(lines, vec![line("Usage: cat <file>", LineType::Error)]);
        }
        other => panic!("unexpected {other:?}"),
    }
    match session.submit("dir") {
        Dispatch::External(ExternalPlan::Windows(WindowsPlan::Fs(FsRequest::ListDir { path }))) => {
            assert!(path.ends_with('.'));
            assert!(path.starts_with("C:\\work"));
        }
        other => panic!("unexpected {other:?}"),
    }
}

#[test]
fn transcript_never_exceeds_the_cap() {
    let mut session = fresh(unix());
    for _ in 0..MAX_LINES {
        session.submit("pwd");
    }
    assert_eq!(session.lines().len(), MAX_LINES);
    session.submit("help");
    let lines = session.lines();
    assert_eq!(lines.len(), MAX_LINES);
    assert_eq!(lines[MAX_LINES - 10], line("/home/me > help", LineType::Command));
    assert!(lines[MAX_LINES - 1].content.starts_with("Allowed system commands"));
}

#[test]
fn append_and_append_many_add_lines() {
    let mut session = fresh(unix());
    session.append(line("one", LineType::Output));
    session.append_many(vec![line("two", LineType::Error), line("three", LineType::Output)]);
    let lines = session.lines();
    assert_eq!(lines.len(), 6);
    assert_eq!(lines[3], line("one", LineType::Output));
    assert_eq!(lines[4], line("two", LineType::Error));
    assert_eq!(lines[5], line("three", LineType::Output));
}

#[test]
fn history_navigation_walks_back_and_forth() {
    let mut session = fresh(unix());
    assert_eq!(session.history_previous(), None);
    assert_eq!(session.history_next(), None);
    session.submit("ls");
    session.submit("pwd");
    session.submit("echo hi");
    assert_eq!(session.history_next(), None);
    assert_eq!(session.history_previous(), Some("echo hi".to_string()));
    assert_eq!(session.history_previous(), Some("pwd".to_string()));
    assert_eq!(session.history_previous(), Some("ls".to_string()));
    assert_eq!(session.history_previous(), Some("ls".to_string()));
    assert_eq!(session.history_next(), Some("pwd".to_string()));
    assert_eq!(session.history_next(), Some("echo hi".to_string()));
    assert_eq!(session.history_next(), Some(String::new()));
    assert_eq!(session.history_next(), None);
}

#[test]
fn submitting_ends_history_navigation() {
    let mut session = fresh(unix());
    session.submit("ls");
    session.submit("pwd");
    assert_eq!(session.history_previous(), Some("pwd".to_string()));
    assert_eq!(session.history_previous(), Some("ls".to_string()));
    session.submit("echo");
    assert_eq!(session.history_next(), None);
    assert_eq!(session.history_previous(), Some("echo".to_string()));
}

#[test]
fn blank_submission_keeps_history_navigation() {
    let mut session = fresh(unix());
    session.submit("ls");
    session.submit("pwd");
    assert_eq!(session.history_previous(), Some("pwd".to_string()));
    session.submit("   ");
    assert_eq!(session.history_previous(), Some("ls".to_string()));
}

#[test]
fn keys_drive_the_session() {
    let mut session = fresh(unix());
    let outcome = session.handle_key(Key::Enter, "pwd");
    assert_eq!(outcome.next, Dispatch::Handled);
    assert_eq!(outcome.input, Some(String::new()));
    let outcome = session.handle_key(Key::Enter, "  ");
    assert_eq!(outcome.next, Dispatch::Ignored);
    assert_eq!(outcome.input, None);
    let outcome = session.handle_key(Key::ArrowUp, "typed");
    assert_eq!(outcome.input, Some("pwd".to_string()));
    let outcome = session.handle_key(Key::ArrowDown, "pwd");
    assert_eq!(outcome.input, Some(String::new()));
    let outcome = session.handle_key(Key::ArrowDown, "");
    assert_eq!(outcome.input, None);
    let outcome = session.handle_key(Key::Other, "x");
    assert_eq!(outcome.input, None);
    assert_eq!(outcome.next, Dispatch::Handled);
    let outcome = session.handle_key(Key::Enter, "exit");
    assert_eq!(outcome.next, Dispatch::Exit);
}

#[test]
fn stream_events_become_tagged_lines_in_arrival_order() {
    let mut session = fresh(unix());
    stream_unix_command(&mut session, "ls", StreamEvent::Stdout("a.txt".to_string()));
    stream_unix_command(&mut session, "ls", StreamEvent::Stderr("warning".to_string()));
    stream_unix_command(&mut session, "ls", StreamEvent::Stdout("b.txt".to_string()));
    let lines = session.lines();
    assert_eq!(lines[3], line("a.txt", LineType::Output));
    assert_eq!(lines[4], line("warning", LineType::Error));
    assert_eq!(lines[5], line("b.txt", LineType::Output));
    assert_eq!(lines.len(), 6);
}

#[test]
fn stream_spawn_failure_names_program_and_reason() {
    let mut session = fresh(unix());
    stream_unix_command(
        &mut session,
        "vim",
        StreamEvent::SpawnFailed("No such file or directory (os error 2)".to_string()),
    );
    let lines = session.lines();
    assert_eq!(lines.len(), 4);
    assert_eq!(lines[3].line_type, LineType::Error);
    assert!(lines[3].content.contains("vim"));
    assert!(lines[3].content.contains("No such file or directory (os error 2)"));
    assert_eq!(lines[3].content, "vim: No such file or directory (os error 2)");
}
