use blaze_terminal::filesystem::grep_file_lines;
use blaze_terminal::filesystem::list_dir_lines;
use blaze_terminal::filesystem::make_dir_lines;
use blaze_terminal::filesystem::plan_removal;
use blaze_terminal::filesystem::read_file_lines;
use blaze_terminal::filesystem::remove_lines;
use blaze_terminal::filesystem::rename_lines;
use blaze_terminal::filesystem::RemovalProbe;
use blaze_terminal::filesystem::RemovalStep;
use blaze_terminal::filesystem::MAX_FILE_BYTES;
use blaze_terminal::state::LineType;
use blaze_terminal::state::TerminalLine;

fn line(content: &str, line_type: LineType) -> TerminalLine {
    TerminalLine { content: content.to_string(), line_type }
}

fn strings(items: &[&str]) -> Vec<String> {
    items.iter().map(|s| s.to_string()).collect()
}

#[test]
fn listing_has_heading_blank_line_and_sorted_entries() {
    let lines = list_dir_lines("C:\\work", Ok(strings(&["zeta", "Alpha", "beta", "beta"])));
    assert_eq!(
        lines,
        vec![
            line(" Directory of C:\\work", LineType::Output),
            line("", LineType::Output),
            line("Alpha", LineType::Output),
            line("beta", LineType::Output),
            line("beta", LineType::Output),
            line("zeta", LineType::Output),
        ]
    );
}

#[test]
fn listing_of_an_empty_directory_has_only_the_heading() {
    let lines = list_dir_lines("/tmp", Ok(Vec::new()));
    assert_eq!(
        lines,
        vec![line(" Directory of /tmp", LineType::Output), line("", LineType::Output)]
    );
}

#[test]
fn unreadable_directory_gives_one_error_line() {
    let lines = list_dir_lines("/nope", Err("Access is denied. (os error 5)".to_string()));
    assert_eq!(lines, vec![line("dir: Access is denied. (os error 5)", LineType::Error)]);
}

#[test]
fn file_is_shown_line_by_line() {
    let lines = read_file_lines(Ok(b"first\r\nsecond\n\nlast".to_vec()));
    assert_eq!(
        lines,
        vec![
            line("first", LineType::Output),
            line("second", LineType::Output),
            line("", LineType::Output),
            line("last", LineType::Output),
        ]
    );
    assert!(read_file_lines(Ok(Vec::new())).is_empty());
}

#[test]
fn file_is_cut_at_the_cap_without_a_marker() {
    assert_eq!(MAX_FILE_BYTES, 512 * 1024);
    let mut bytes = vec![b'x'; MAX_FILE_BYTES];
    bytes.extend_from_slice(b"\nhidden\n");
    let lines = read_file_lines(Ok(bytes));
    assert_eq!(lines.len(), 1);
    assert_eq!(lines[0].content.len(), MAX_FILE_BYTES);
}

#[test]
fn file_with_invalid_bytes_is_decoded_leniently() {
    let lines = read_file_lines(Ok(b"a\xffb\n".to_vec()));
    assert_eq!(lines, vec![line("a\u{fffd}b", LineType::Output)]);
}

#[test]
fn unreadable_file_gives_one_error_line() {
    let lines = read_file_lines(Err("not found".to_string()));
    assert_eq!(lines, vec![line("cat: not found", LineType::Error)]);
}

#[test]
fn grep_numbers_the_matching_lines() {
    let text = "fn main() {\n    // TODO: one\n    let x = 1;\n    // TODO: two\n}\n";
    let lines = grep_file_lines("TODO", Ok(text.to_string()));
    assert_eq!(
        lines,
        vec![
            line("2:    // TODO: one", LineType::Output),
            line("4:    // TODO: two", LineType::Output),
        ]
    );
}

#[test]
fn grep_is_case_sensitive_and_literal() {
    let lines = grep_file_lines("todo", Ok("TODO\n".to_string()));
    assert_eq!(lines, vec![line("(no matches)", LineType::Output)]);
    let lines = grep_file_lines("a.c", Ok("abc\na.c\n".to_string()));
    assert_eq!(lines, vec![line("2:a.c", LineType::Output)]);
}

#[test]
fn grep_with_the_empty_pattern_matches_every_line() {
    let lines = grep_file_lines("", Ok("a\n\nb".to_string()));
    assert_eq!(
        lines,
        vec![
            line("1:a", LineType::Output),
            line("2:", LineType::Output),
            line("3:b", LineType::Output),
        ]
    );
}

#[test]
fn grep_counts_lines_past_nine() {
    let text: String = (1..=12).map(|n| format!("row {n}\n")).collect();
    let lines = grep_file_lines("row 1", Ok(text));
    assert_eq!(
        lines,
        vec![
            line("1:row 1", LineType::Output),
            line("10:row 10", LineType::Output),
            line("11:row 11", LineType::Output),
            line("12:row 12", LineType::Output),
        ]
    );
}

#[test]
fn grep_of_an_unreadable_file_gives_one_error_line() {
    let lines = grep_file_lines("x", Err("stream did not contain valid UTF-8".to_string()));
    assert_eq!(lines, vec![line("grep: stream did not contain valid UTF-8", LineType::Error)]);
    let lines = grep_file_lines("x", Ok(String::new()));
    assert_eq!(lines, vec![line("(no matches)", LineType::Output)]);
}

#[test]
fn removal_follows_the_kind_of_the_target() {
    assert_eq!(plan_removal(RemovalProbe::Directory), RemovalStep::RemoveTree);
    assert_eq!(plan_removal(RemovalProbe::File), RemovalStep::RemoveFile);
    assert_eq!(
        plan_removal(RemovalProbe::Failed("not found".to_string())),
        RemovalStep::Refuse("not found".to_string())
    );
}

#[test]
fn status_answers_report_success_or_reason() {
    assert_eq!(make_dir_lines(Ok(())), vec![line("Directory created", LineType::Output)]);
    assert_eq!(
        make_dir_lines(Err("denied".to_string())),
        vec![line("mkdir: denied", LineType::Error)]
    );
    assert_eq!(remove_lines(Ok(())), vec![line("Deleted", LineType::Output)]);
    assert_eq!(
        remove_lines(Err("Access is denied. (os error 5)".to_string())),
        vec![line("rm: Access is denied. (os error 5)", LineType::Error)]
    );
    assert_eq!(rename_lines(Ok(())), vec![line("Moved", LineType::Output)]);
    assert_eq!(rename_lines(Err("busy".to_string())), vec![line("mv: busy", LineType::Error)]);
}
