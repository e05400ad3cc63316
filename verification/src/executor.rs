//! Running external programs: the decisions and the answers.
//!
//! Two strategies exist. The blocking strategy runs a program to its end
//! under a wall-clock limit and turns what it wrote into lines. The streaming
//! strategy forwards each line as it arrives. Starting, polling, killing and
//! reading are the caller's part; what to do next and what to show are
//! decided here.

use vstd::prelude::*;
use vstd::string::StringSliceAdditionalSpecFns;
use crate::buffer::capped;
use crate::session::Session;
use crate::session::SessionView;
use crate::state::lines_from_texts;
use crate::state::lines_of_kind;
use crate::state::single_line;
use crate::state::LineType;
use crate::state::TerminalLine;
use crate::text::followed_by;
use crate::text::decimal;
use crate::text::from_utf8_lossy;
use crate::text::lines_of;
use crate::text::lossy_text;
use crate::text::occurs_at;
use crate::text::occurs_in;
use crate::text::push_decimal;
use crate::text::split_lines;

verus! {

/// The most bytes of a program's output that are shown.
pub const MAX_CMD_OUTPUT_BYTES: usize = 1024 * 1024;

/// The time a program may run under the blocking strategy, in milliseconds.
pub const MAX_CMD_RUNTIME_MS: u64 = 15000;

/// The pause between two looks at a running program, in milliseconds.
pub const POLL_INTERVAL_MS: u64 = 50;

/// What a look at a running program showed.
#[derive(Clone, Debug, PartialEq)]
pub enum PollEvent {
    /// The program has ended.
    Exited,
    /// The program is still running.
    Running,
    /// The program's state could not be read; this is the system's message.
    Failed(String),
}

/// What to do after a look at a running program.
#[derive(Clone, Debug, PartialEq)]
pub enum PollStep {
    /// Collect the program's output.
    Collect,
    /// Pause for so many milliseconds, then look again.
    Sleep(u64),
    /// Kill the program: it has run out of time.
    Kill,
    /// Give up: the program's state cannot be read.
    Abandon(String),
}

/// How a run under the blocking strategy ended.
#[derive(Clone, Debug, PartialEq)]
pub enum ProcessOutcome {
    /// The program could not be started.
    SpawnFailed(String),
    /// The program ran out of time and was killed.
    TimedOut,
    /// The program's state or its output could not be read.
    WaitFailed(String),
    /// The program ended.
    Finished { stdout: Vec<u8>, stderr: Vec<u8>, success: bool },
}

/// Decides what follows a look at a running program, `elapsed_ms` after its
/// start: a program that has ended is collected, one that is still running
/// is killed once `max_runtime_ms` have passed and looked at again after
/// `POLL_INTERVAL_MS` otherwise.
pub fn next_poll_step(event: PollEvent, elapsed_ms: u64, max_runtime_ms: u64) -> (step: PollStep)
    ensures
        match event {
            PollEvent::Exited => step == PollStep::Collect,
            PollEvent::Running => if elapsed_ms >= max_runtime_ms {
                step == PollStep::Kill
            } else {
                step == PollStep::Sleep(POLL_INTERVAL_MS)
            },
            PollEvent::Failed(reason) => step matches PollStep::Abandon(text) && text@ == reason@,
        },
{
    match event {
        PollEvent::Exited => PollStep::Collect,
        PollEvent::Running => if elapsed_ms >= max_runtime_ms {
            PollStep::Kill
        } else {
            PollStep::Sleep(POLL_INTERVAL_MS)
        },
        PollEvent::Failed(reason) => PollStep::Abandon(reason),
    }
}

/// What marks output that was cut off.
pub open spec fn truncation_marker() -> Seq<u8> {
    "\n...(output truncated)\n".spec_bytes()
}

/// The bytes of a program's output that are shown: all of them, or the first
/// `MAX_CMD_OUTPUT_BYTES` followed by the truncation marker.
pub open spec fn shown_bytes(output: Seq<u8>) -> Seq<u8> {
    if output.len() > MAX_CMD_OUTPUT_BYTES {
        output.take(MAX_CMD_OUTPUT_BYTES as int) + truncation_marker()
    } else {
        output
    }
}

/// The kind of the lines of a program that ended.
pub open spec fn finished_kind(success: bool) -> LineType {
    if success {
        LineType::Output
    } else {
        LineType::Error
    }
}

/// The lines for a program that ended: standard output followed by standard
/// error, cut at the cap, decoded leniently and split into lines, all of one
/// kind. A program that wrote nothing gives one empty line.
pub open spec fn finished_lines(stdout: Seq<u8>, stderr: Seq<u8>, success: bool) -> Seq<
    (Seq<char>, LineType),
> {
    let lines = lines_of(lossy_text(shown_bytes(stdout + stderr)));
    if lines.len() == 0 {
        seq![(Seq::empty(), finished_kind(success))]
    } else {
        lines_of_kind(lines, finished_kind(success))
    }
}

/// The message for a program that could not be started or read.
pub open spec fn failure_message(program: Seq<char>, reason: Seq<char>) -> Seq<char> {
    program + ": "@ + reason
}

/// The message for a program that ran out of time; the limit is shown in
/// whole seconds.
pub open spec fn timeout_message(program: Seq<char>, max_runtime_ms: u64) -> Seq<char> {
    program + ": timed out after "@ + decimal((max_runtime_ms / 1000) as nat) + "s"@
}

/// The message for a program that ran out of time says so: it holds the
/// words `timed out after`.
pub proof fn lemma_timeout_message_says_so(program: Seq<char>, max_runtime_ms: u64)
    ensures
        occurs_in(timeout_message(program, max_runtime_ms), "timed out after"@),
{
    reveal_strlit(": timed out after ");
    reveal_strlit("timed out after");
    let message = timeout_message(program, max_runtime_ms);
    let at = (program.len() + 2) as int;
    assert(message.subrange(at, at + 15) =~= "timed out after"@);
    assert(occurs_at(message, "timed out after"@, at));
}

/// Appends the bytes of `source` to `target`.
fn extend_bytes(target: &mut Vec<u8>, source: &[u8])
    ensures
        final(target)@ == old(target)@ + source@,
{
    let mut i: usize = 0;
    assert(source@.take(0) =~= Seq::<u8>::empty());
    assert(target@ + Seq::<u8>::empty() =~= target@);
    while i < source.len()
        invariant
            i <= source.len(),
            target@ == old(target)@ + source@.take(i as int),
        decreases source.len() - i,
    {
        target.push(source[i]);
        assert(source@.take(i as int + 1) =~= source@.take(i as int).push(source@[i as int]));
        assert(target@ =~= old(target)@ + source@.take(i as int + 1));
        i += 1;
    }
    assert(source@.take(i as int) =~= source@);
}

/// Turns the outcome of a run under the blocking strategy into transcript
/// lines.
///
/// A program that could not be started or read gives one error line with
/// the program's name and the system's message. A program that ran out of
/// time gives exactly one error line, `<program>: timed out after <N>s`. A
/// program that ended gives the lines of its output, as output if it
/// succeeded and as errors if it did not.
pub fn run_external_command_lines(program: &str, max_runtime_ms: u64, outcome: ProcessOutcome) -> (lines:
    Vec<TerminalLine>)
    ensures
        lines.deep_view() == match outcome {
            ProcessOutcome::SpawnFailed(reason) => seq![
                (failure_message(program@, reason@), LineType::Error),
            ],
            ProcessOutcome::TimedOut => seq![
                (timeout_message(program@, max_runtime_ms), LineType::Error),
            ],
            ProcessOutcome::WaitFailed(reason) => seq![
                (failure_message(program@, reason@), LineType::Error),
            ],
            ProcessOutcome::Finished { stdout, stderr, success } => finished_lines(
                stdout@,
                stderr@,
                success,
            ),
        },
{
    match outcome {
        ProcessOutcome::SpawnFailed(reason) => {
            let mut text = followed_by(program, ": ");
            text.append(reason.as_str());
            single_line(text, LineType::Error)
        },
        ProcessOutcome::TimedOut => {
            let mut text = followed_by(program, ": timed out after ");
            push_decimal(&mut text, max_runtime_ms / 1000);
            text.append("s");
            single_line(text, LineType::Error)
        },
        ProcessOutcome::WaitFailed(reason) => {
            let mut text = followed_by(program, ": ");
            text.append(reason.as_str());
            single_line(text, LineType::Error)
        },
        ProcessOutcome::Finished { stdout, stderr, success } => {
            let mut bytes: Vec<u8> = Vec::new();
            extend_bytes(&mut bytes, stdout.as_slice());
            extend_bytes(&mut bytes, stderr.as_slice());
            assert(bytes@ =~= stdout@ + stderr@);
            if bytes.len() > MAX_CMD_OUTPUT_BYTES {
                bytes.truncate(MAX_CMD_OUTPUT_BYTES);
                extend_bytes(&mut bytes, "\n...(output truncated)\n".as_bytes());
            }
            assert(bytes@ =~= shown_bytes(stdout@ + stderr@));
            let text = from_utf8_lossy(bytes.as_slice());
            let line_type = if success {
                LineType::Output
            } else {
                LineType::Error
            };
            let texts = split_lines(text.as_str());
            if texts.len() == 0 {
                return single_line(String::new(), line_type);
            }
            lines_from_texts(&texts, line_type)
        },
    }
}

/// The name that `whoami` shows: the value of `USERNAME`, else that of
/// `USER`, else `unknown`.
pub open spec fn user_name(username: Option<Seq<char>>, user: Option<Seq<char>>) -> Seq<char> {
    match username {
        Some(name) => name,
        None => match user {
            Some(name) => name,
            None => "unknown"@,
        },
    }
}

/// The answer to `whoami` on Windows, given the values of the environment
/// variables `USERNAME` and `USER` where they are set.
pub fn whoami_lines(username: Option<&str>, user: Option<&str>) -> (lines: Vec<TerminalLine>)
    ensures
        lines.deep_view() == seq![
            (
                user_name(
                    match username {
                        Some(name) => Some(name@),
                        None => None,
                    },
                    match user {
                        Some(name) => Some(name@),
                        None => None,
                    },
                ),
                LineType::Output,
            ),
        ],
{
    let name = match username {
        Some(name) => name,
        None => match user {
            Some(name) => name,
            None => "unknown",
        },
    };
    single_line(name.to_owned(), LineType::Output)
}

/// Something that the streaming strategy reports.
#[derive(Clone, Debug, PartialEq)]
pub enum StreamEvent {
    /// A line that the program wrote to standard output.
    Stdout(String),
    /// A line that the program wrote to standard error.
    Stderr(String),
    /// The program could not be started; this is the system's message.
    SpawnFailed(String),
}

/// The transcript line for an event of the streaming strategy: a line of
/// standard output as output, a line of standard error as an error, and a
/// failure to start as an error that names the program.
pub open spec fn stream_line(program: Seq<char>, event: StreamEvent) -> (Seq<char>, LineType) {
    match event {
        StreamEvent::Stdout(line) => (line@, LineType::Output),
        StreamEvent::Stderr(line) => (line@, LineType::Error),
        StreamEvent::SpawnFailed(reason) => (failure_message(program, reason@), LineType::Error),
    }
}

/// Records one event of the streaming strategy in the transcript. Events are
/// recorded in the order in which they are handed in; how the program ended
/// plays no part.
pub fn stream_unix_command(session: &mut Session, program: &str, event: StreamEvent)
    requires
        old(session).wf(),
    ensures
        final(session).wf(),
        final(session)@ == (SessionView {
            lines: capped(old(session)@.lines.push(stream_line(program@, event))),
            ..old(session)@
        }),
{
    let line = match event {
        StreamEvent::Stdout(line) => TerminalLine::new(line, LineType::Output),
        StreamEvent::Stderr(line) => TerminalLine::new(line, LineType::Error),
        StreamEvent::SpawnFailed(reason) => {
            let mut text = followed_by(program, ": ");
            text.append(reason.as_str());
            TerminalLine::new(text, LineType::Error)
        },
    };
    session.append(line);
}

} // verus!
