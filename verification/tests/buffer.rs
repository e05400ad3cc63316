use blaze_terminal::buffer::push_line_trim;
use blaze_terminal::buffer::LineBuffer;
use blaze_terminal::buffer::MAX_LINES;
use blaze_terminal::state::lines_from_texts;
use blaze_terminal::state::single_line;
use blaze_terminal::state::static_lines;
use blaze_terminal::state::LineType;
use blaze_terminal::state::TerminalLine;

fn numbered(n: usize) -> TerminalLine {
    TerminalLine { content: format!("line {n}"), line_type: LineType::Output }
}

#[test]
fn max_lines_is_five_thousand() {
    assert_eq!(MAX_LINES, 5000);
}

#[test]
fn push_line_trim_appends_below_the_cap() {
    let mut lines = vec![numbered(0), numbered(1)];
    push_line_trim(&mut lines, numbered(2));
    assert_eq!(lines, vec![numbered(0), numbered(1), numbered(2)]);
}

#[test]
fn push_line_trim_evicts_the_oldest_at_the_cap() {
    let mut lines: Vec<TerminalLine> = (0..MAX_LINES).map(numbered).collect();
    push_line_trim(&mut lines, numbered(MAX_LINES));
    assert_eq!(lines.len(), MAX_LINES);
    assert_eq!(lines[0], numbered(1));
    assert_eq!(lines[MAX_LINES - 1], numbered(MAX_LINES));
}

#[test]
fn push_line_trim_restores_the_cap_of_an_overfull_vector() {
    let mut lines: Vec<TerminalLine> = (0..MAX_LINES + 10).map(numbered).collect();
    push_line_trim(&mut lines, numbered(MAX_LINES + 10));
    assert_eq!(lines.len(), MAX_LINES);
    assert_eq!(lines[0], numbered(11));
    assert_eq!(lines[MAX_LINES - 1], numbered(MAX_LINES + 10));
}

#[test]
fn appending_beyond_the_cap_keeps_the_newest_in_order() {
    let k = 7;
    let mut buffer = LineBuffer::new();
    for n in 0..MAX_LINES + k {
        buffer.append(numbered(n));
    }
    assert_eq!(buffer.len(), MAX_LINES);
    let lines = buffer.lines();
    for (i, line) in lines.iter().enumerate() {
        assert_eq!(*line, numbered(i + k));
    }
}

#[test]
fn append_many_equals_repeated_append() {
    let entries: Vec<TerminalLine> = (0..MAX_LINES + 3).map(numbered).collect();
    let mut one_by_one = LineBuffer::new();
    one_by_one.append(numbered(9999));
    for entry in &entries {
        one_by_one.append(entry.clone());
    }
    let mut at_once = LineBuffer::new();
    at_once.append(numbered(9999));
    at_once.append_many(entries);
    assert_eq!(at_once.lines(), one_by_one.lines());
    assert_eq!(at_once.len(), MAX_LINES);
    assert_eq!(at_once.lines()[0], numbered(3));
}

#[test]
fn clear_empties_a_full_buffer() {
    let mut buffer = LineBuffer::new();
    for n in 0..MAX_LINES {
        buffer.append(numbered(n));
    }
    buffer.clear();
    assert_eq!(buffer.len(), 0);
    assert!(buffer.lines().is_empty());
    buffer.append(numbered(1));
    assert_eq!(buffer.lines(), &vec![numbered(1)]);
}

#[test]
fn new_buffer_is_empty() {
    let buffer = LineBuffer::new();
    assert_eq!(buffer.len(), 0);
}

#[test]
fn terminal_line_constructors_agree() {
    let made = TerminalLine::new("abc".to_string(), LineType::Error);
    assert_eq!(made, TerminalLine { content: "abc".to_string(), line_type: LineType::Error });
    assert_eq!(TerminalLine::of("abc", LineType::Error), made);
    assert_eq!(made.duplicate(), made);
}

#[test]
fn lines_are_built_from_texts_in_order() {
    let texts = vec!["a".to_string(), String::new(), "c".to_string()];
    let lines = lines_from_texts(&texts, LineType::Output);
    assert_eq!(lines.len(), 3);
    assert_eq!(lines[0], TerminalLine::of("a", LineType::Output));
    assert_eq!(lines[1], TerminalLine::of("", LineType::Output));
    assert_eq!(lines[2], TerminalLine::of("c", LineType::Output));
    assert_eq!(static_lines(&["a", "", "c"], LineType::Output), lines);
    assert_eq!(
        single_line("only".to_string(), LineType::System),
        vec![TerminalLine::of("only", LineType::System)]
    );
    assert!(lines_from_texts(&Vec::new(), LineType::Error).is_empty());
}
