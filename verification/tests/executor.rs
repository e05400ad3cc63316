use blaze_terminal::executor::next_poll_step;
use blaze_terminal::executor::run_external_command_lines;
use blaze_terminal::executor::whoami_lines;
use blaze_terminal::executor::PollEvent;
use blaze_terminal::executor::PollStep;
use blaze_terminal::executor::ProcessOutcome;
use blaze_terminal::executor::MAX_CMD_OUTPUT_BYTES;
use blaze_terminal::executor::MAX_CMD_RUNTIME_MS;
use blaze_terminal::executor::POLL_INTERVAL_MS;
use blaze_terminal::state::LineType;
use blaze_terminal::state::TerminalLine;

fn line(content: &str, line_type: LineType) -> TerminalLine {
    TerminalLine { content: content.to_string(), line_type }
}

fn finished(stdout: &[u8], stderr: &[u8], success: bool) -> ProcessOutcome {
    ProcessOutcome::Finished { stdout: stdout.to_vec(), stderr: stderr.to_vec(), success }
}

#[test]
fn limits_have_their_documented_values() {
    assert_eq!(MAX_CMD_OUTPUT_BYTES, 1024 * 1024);
    assert_eq!(MAX_CMD_RUNTIME_MS, 15_000);
    assert_eq!(POLL_INTERVAL_MS, 50);
}

#[test]
fn exited_program_is_collected() {
    assert_eq!(next_poll_step(PollEvent::Exited, 0, 15_000), PollStep::Collect);
    assert_eq!(next_poll_step(PollEvent::Exited, 99_000, 15_000), PollStep::Collect);
}

#[test]
fn running_program_is_polled_until_the_limit() {
    assert_eq!(next_poll_step(PollEvent::Running, 0, 15_000), PollStep::Sleep(50));
    assert_eq!(next_poll_step(PollEvent::Running, 14_999, 15_000), PollStep::Sleep(50));
    assert_eq!(next_poll_step(PollEvent::Running, 15_000, 15_000), PollStep::Kill);
    assert_eq!(next_poll_step(PollEvent::Running, 15_001, 15_000), PollStep::Kill);
    assert_eq!(next_poll_step(PollEvent::Running, 0, 0), PollStep::Kill);
}

#[test]
fn unreadable_program_is_abandoned() {
    assert_eq!(
        next_poll_step(PollEvent::Failed("gone".to_string()), 10, 15_000),
        PollStep::Abandon("gone".to_string())
    );
}

/// Follows a program that never ends by itself through the polling loop, on
/// a clock that advances by the pauses asked for.
fn outcome_of_endless_program(max_runtime_ms: u64) -> ProcessOutcome {
    let mut elapsed_ms = 0;
    loop {
        match next_poll_step(PollEvent::Running, elapsed_ms, max_runtime_ms) {
            PollStep::Sleep(millis) => elapsed_ms += millis,
            PollStep::Kill => return ProcessOutcome::TimedOut,
            other => panic!("unexpected step {other:?}"),
        }
    }
}

#[test]
fn external_command_times_out_and_reports_error() {
    let max_runtime_ms = 250;
    let outcome = outcome_of_endless_program(max_runtime_ms);
    let lines = run_external_command_lines("powershell", max_runtime_ms, outcome);

    assert!(
        lines.iter().any(|l| l.content.contains("timed out after") && l.line_type == LineType::Error),
        "expected timeout error line"
    );
    assert_eq!(lines.len(), 1);
}

#[test]
fn timed_out_program_yields_exactly_one_error_line() {
    let outcome = outcome_of_endless_program(MAX_CMD_RUNTIME_MS);
    let lines = run_external_command_lines("powershell", MAX_CMD_RUNTIME_MS, outcome);
    assert_eq!(lines, vec![line("powershell: timed out after 15s", LineType::Error)]);
}

#[test]
fn timeout_is_shown_in_whole_seconds() {
    let lines = run_external_command_lines("sleep", 250, ProcessOutcome::TimedOut);
    assert_eq!(lines, vec![line("sleep: timed out after 0s", LineType::Error)]);
    let lines = run_external_command_lines("sleep", 2_999, ProcessOutcome::TimedOut);
    assert_eq!(lines, vec![line("sleep: timed out after 2s", LineType::Error)]);
}

#[test]
fn spawn_and_wait_failures_name_program_and_reason() {
    let lines = run_external_command_lines(
        "curl",
        15_000,
        ProcessOutcome::SpawnFailed("program not found".to_string()),
    );
    assert_eq!(lines, vec![line("curl: program not found", LineType::Error)]);
    let lines = run_external_command_lines(
        "curl",
        15_000,
        ProcessOutcome::WaitFailed("broken pipe".to_string()),
    );
    assert_eq!(lines, vec![line("curl: broken pipe", LineType::Error)]);
}

#[test]
fn successful_output_becomes_output_lines() {
    let lines = run_external_command_lines("x", 15_000, finished(b"one\r\ntwo\n", b"three", true));
    assert_eq!(
        lines,
        vec![
            line("one", LineType::Output),
            line("two", LineType::Output),
            line("three", LineType::Output),
        ]
    );
}

#[test]
fn failed_program_output_becomes_error_lines() {
    let lines = run_external_command_lines("x", 15_000, finished(b"partial\n", b"boom\n", false));
    assert_eq!(lines, vec![line("partial", LineType::Error), line("boom", LineType::Error)]);
}

#[test]
fn stdout_and_stderr_join_without_a_separator() {
    let lines = run_external_command_lines("x", 15_000, finished(b"ab", b"cd\n", true));
    assert_eq!(lines, vec![line("abcd", LineType::Output)]);
}

#[test]
fn silent_program_yields_one_empty_line() {
    let lines = run_external_command_lines("x", 15_000, finished(b"", b"", true));
    assert_eq!(lines, vec![line("", LineType::Output)]);
    let lines = run_external_command_lines("x", 15_000, finished(b"", b"", false));
    assert_eq!(lines, vec![line("", LineType::Error)]);
}

#[test]
fn invalid_bytes_are_replaced_not_fatal() {
    let lines = run_external_command_lines("x", 15_000, finished(b"ok \xff\xfe end\n", b"", true));
    assert_eq!(lines, vec![line("ok \u{fffd}\u{fffd} end", LineType::Output)]);
    let lines = run_external_command_lines("x", 15_000, finished("é⚡\n".as_bytes(), b"", true));
    assert_eq!(lines, vec![line("é⚡", LineType::Output)]);
}

#[test]
fn output_at_the_cap_is_not_truncated() {
    let stdout = vec![b'a'; MAX_CMD_OUTPUT_BYTES];
    let lines = run_external_command_lines("x", 15_000, finished(&stdout, b"", true));
    assert_eq!(lines.len(), 1);
    assert_eq!(lines[0].content.len(), MAX_CMD_OUTPUT_BYTES);
}

#[test]
fn output_beyond_the_cap_is_cut_and_marked() {
    let stdout = vec![b'a'; MAX_CMD_OUTPUT_BYTES - 2];
    let lines = run_external_command_lines("x", 15_000, finished(&stdout, b"bcdef\n", true));
    assert_eq!(lines.len(), 2);
    assert_eq!(lines[0].content.len(), MAX_CMD_OUTPUT_BYTES);
    assert!(lines[0].content.ends_with("aabc"));
    assert_eq!(lines[1], line("...(output truncated)", LineType::Output));
}

#[test]
fn whoami_prefers_username_then_user() {
    assert_eq!(whoami_lines(Some("alice"), Some("bob")), vec![line("alice", LineType::Output)]);
    assert_eq!(whoami_lines(None, Some("bob")), vec![line("bob", LineType::Output)]);
    assert_eq!(whoami_lines(None, None), vec![line("unknown", LineType::Output)]);
}
