//! The answers to the commands that Windows serves from the filesystem.
//!
//! The caller reads directories and files and reports what it found; the
//! functions here turn the report into transcript lines.

use vstd::prelude::*;
use crate::sorting::ascending;
use crate::sorting::sort_names;
use crate::state::lines_from_texts;
use crate::state::lines_of_kind;
use crate::state::single_line;
use crate::state::texts_of;
use crate::state::LineType;
use crate::state::TerminalLine;
use crate::text::chars_of;
use crate::text::followed_by;
use crate::text::contains_chars;
use crate::text::decimal;
use crate::text::from_utf8_lossy;
use crate::text::lines_of;
use crate::text::lossy_text;
use crate::text::occurs_in;
use crate::text::push_decimal;
use crate::text::split_lines;

verus! {

/// The most bytes of a file that `cat` shows.
pub const MAX_FILE_BYTES: usize = 512 * 1024;

/// The answer to `dir` and `ls`: a heading that names the directory, an empty
/// line, and the entries in ascending order; or one error line if the
/// directory could not be read.
pub fn list_dir_lines(path: &str, listing: Result<Vec<String>, String>) -> (lines: Vec<TerminalLine>)
    ensures
        match listing {
            Ok(names) => {
                &&& lines.len() == names.len() + 2
                &&& lines.deep_view()[0] == ((" Directory of "@ + path@, LineType::Output))
                &&& lines.deep_view()[1] == ((Seq::<char>::empty(), LineType::Output))
                &&& forall|i: int|
                    0 <= i < lines.len() ==> (#[trigger] lines.deep_view()[i]).1
                        == LineType::Output
                &&& ascending(texts_of(lines.deep_view().skip(2)))
                &&& texts_of(lines.deep_view().skip(2)).to_multiset()
                    == names.deep_view().to_multiset()
            },
            Err(reason) => lines.deep_view() == seq![("dir: "@ + reason@, LineType::Error)],
        },
{
    match listing {
        Ok(names) => {
            let mut lines: Vec<TerminalLine> = Vec::new();
            lines.push(TerminalLine::new(followed_by(" Directory of ", path), LineType::Output));
            lines.push(TerminalLine::new(String::new(), LineType::Output));
            let sorted = sort_names(names);
            let mut entries = lines_from_texts(&sorted, LineType::Output);
            let ghost head = lines.deep_view();
            let ghost tail = entries.deep_view();
            lines.append(&mut entries);
            proof {
                assert(head =~= seq![
                    (" Directory of "@ + path@, LineType::Output),
                    (Seq::<char>::empty(), LineType::Output),
                ]);
                assert(lines.deep_view() =~= head + tail);
                assert(lines.deep_view().skip(2) =~= tail);
                assert(texts_of(lines_of_kind(sorted.deep_view(), LineType::Output))
                    =~= sorted.deep_view());
                assert(lines.deep_view()[0] == head[0]);
                assert(lines.deep_view()[1] == head[1]);
                assert forall|i: int| 0 <= i < lines.len() implies (#[trigger] lines.deep_view()[i]).1
                    == LineType::Output by {
                    if i >= 2 {
                        assert(lines.deep_view()[i] == tail[i - 2]);
                    }
                }
            }
            lines
        },
        Err(reason) => single_line(followed_by("dir: ", reason.as_str()), LineType::Error),
    }
}

/// The bytes of a file that `cat` shows: the first `MAX_FILE_BYTES`.
pub open spec fn shown_file_bytes(bytes: Seq<u8>) -> Seq<u8> {
    if bytes.len() > MAX_FILE_BYTES {
        bytes.take(MAX_FILE_BYTES as int)
    } else {
        bytes
    }
}

/// The answer to `cat` and `type`: the lines of the file, cut at
/// `MAX_FILE_BYTES` and decoded leniently; or one error line if the file
/// could not be read.
pub fn read_file_lines(content: Result<Vec<u8>, String>) -> (lines: Vec<TerminalLine>)
    ensures
        lines.deep_view() == match content {
            Ok(bytes) => lines_of_kind(
                lines_of(lossy_text(shown_file_bytes(bytes@))),
                LineType::Output,
            ),
            Err(reason) => seq![("cat: "@ + reason@, LineType::Error)],
        },
{
    match content {
        Ok(bytes) => {
            let mut bytes = bytes;
            if bytes.len() > MAX_FILE_BYTES {
                bytes.truncate(MAX_FILE_BYTES);
            }
            let text = from_utf8_lossy(bytes.as_slice());
            let texts = split_lines(text.as_str());
            lines_from_texts(&texts, LineType::Output)
        },
        Err(reason) => single_line(followed_by("cat: ", reason.as_str()), LineType::Error),
    }
}

/// A matching line as `grep` shows it: its number, counted from one, a colon,
/// and the line.
pub open spec fn numbered(index: int, line: Seq<char>) -> Seq<char> {
    decimal((index + 1) as nat) + ":"@ + line
}

/// The numbered lines among the first `upto` of `lines` in which `pattern`
/// occurs.
pub open spec fn matching_lines(lines: Seq<Seq<char>>, pattern: Seq<char>, upto: int) -> Seq<
    Seq<char>,
>
    decreases upto,
{
    if upto <= 0 {
        Seq::empty()
    } else {
        let earlier = matching_lines(lines, pattern, upto - 1);
        if occurs_in(lines[upto - 1], pattern) {
            earlier.push(numbered(upto - 1, lines[upto - 1]))
        } else {
            earlier
        }
    }
}

/// What `grep` answers for a text: the numbered matching lines, or a note
/// that there is none.
pub open spec fn grep_answer(text: Seq<char>, pattern: Seq<char>) -> Seq<(Seq<char>, LineType)> {
    let found = matching_lines(lines_of(text), pattern, lines_of(text).len() as int);
    if found.len() == 0 {
        seq![("(no matches)"@, LineType::Output)]
    } else {
        lines_of_kind(found, LineType::Output)
    }
}

/// The answer to `grep`: every line of the file in which `pattern` occurs,
/// with its number; a note if there is none; or one error line if the file
/// could not be read as text.
pub fn grep_file_lines(pattern: &str, content: Result<String, String>) -> (lines: Vec<TerminalLine>)
    ensures
        lines.deep_view() == match content {
            Ok(text) => grep_answer(text@, pattern@),
            Err(reason) => seq![("grep: "@ + reason@, LineType::Error)],
        },
{
    let text = match content {
        Ok(text) => text,
        Err(reason) => {
            return single_line(followed_by("grep: ", reason.as_str()), LineType::Error);
        },
    };
    let wanted = chars_of(pattern);
    let all = split_lines(text.as_str());
    let mut found: Vec<String> = Vec::new();
    let mut i: usize = 0;
    assert(found.deep_view() =~= matching_lines(all.deep_view(), pattern@, 0));
    while i < all.len()
        invariant
            i <= all.len(),
            wanted@ == pattern@,
            found.deep_view() == matching_lines(all.deep_view(), pattern@, i as int),
        decreases all.len() - i,
    {
        assert(all.deep_view()[i as int] == all[i as int]@);
        let line = chars_of(all[i].as_str());
        if contains_chars(&line, &wanted) {
            let ghost before = found.deep_view();
            let mut shown = String::new();
            push_decimal(&mut shown, (i + 1) as u64);
            shown.append(":");
            shown.append(all[i].as_str());
            assert(shown@ =~= numbered(i as int, all[i as int]@));
            found.push(shown);
            assert(found.deep_view() =~= before.push(numbered(i as int, all[i as int]@)));
        }
        i += 1;
    }
    if found.len() == 0 {
        single_line("(no matches)".to_owned(), LineType::Output)
    } else {
        lines_from_texts(&found, LineType::Output)
    }
}

/// What a look at the target of `rm` showed.
#[derive(Clone, Debug, PartialEq)]
pub enum RemovalProbe {
    /// The target is a directory.
    Directory,
    /// The target exists and is no directory.
    File,
    /// The target could not be examined; this is the system's message.
    Failed(String),
}

/// How to remove the target of `rm`.
#[derive(Clone, Debug, PartialEq)]
pub enum RemovalStep {
    /// Remove the directory with all that it holds.
    RemoveTree,
    /// Remove the file.
    RemoveFile,
    /// Remove nothing; this is the reason.
    Refuse(String),
}

/// Chooses how `rm` removes its target: a directory with all that it holds,
/// anything else as a file. A target that could not be examined is not
/// touched, and the system's message is the reason.
pub fn plan_removal(probe: RemovalProbe) -> (step: RemovalStep)
    ensures
        match probe {
            RemovalProbe::Directory => step == RemovalStep::RemoveTree,
            RemovalProbe::File => step == RemovalStep::RemoveFile,
            RemovalProbe::Failed(message) => step matches RemovalStep::Refuse(reason) && reason@
                == message@,
        },
{
    match probe {
        RemovalProbe::Directory => RemovalStep::RemoveTree,
        RemovalProbe::File => RemovalStep::RemoveFile,
        RemovalProbe::Failed(message) => RemovalStep::Refuse(message),
    }
}

/// The answer of a command that reports only whether it succeeded: the
/// success text as output, or the command's name and the reason as an
/// error.
pub open spec fn status_answer(command: Seq<char>, done: Seq<char>, outcome: Result<(), String>) -> Seq<
    (Seq<char>, LineType),
> {
    match outcome {
        Ok(_) => seq![(done, LineType::Output)],
        Err(reason) => seq![(command + ": "@ + reason@, LineType::Error)],
    }
}

/// The answer of a command that reports only whether it succeeded.
fn status_lines(command: &str, done: &str, outcome: Result<(), String>) -> (lines: Vec<TerminalLine>)
    ensures
        lines.deep_view() == status_answer(command@, done@, outcome),
{
    match outcome {
        Ok(_) => single_line(done.to_owned(), LineType::Output),
        Err(reason) => {
            let mut text = followed_by(command, ": ");
            text.append(reason.as_str());
            single_line(text, LineType::Error)
        },
    }
}

/// The answer to `mkdir`.
pub fn make_dir_lines(outcome: Result<(), String>) -> (lines: Vec<TerminalLine>)
    ensures
        lines.deep_view() == status_answer("mkdir"@, "Directory created"@, outcome),
{
    status_lines("mkdir", "Directory created", outcome)
}

/// The answer to `rm` and `del`. A target that `plan_removal` refuses to
/// touch is reported like a failure of the removal itself.
pub fn remove_lines(outcome: Result<(), String>) -> (lines: Vec<TerminalLine>)
    ensures
        lines.deep_view() == status_answer("rm"@, "Deleted"@, outcome),
{
    status_lines("rm", "Deleted", outcome)
}

/// The answer to `mv`.
pub fn rename_lines(outcome: Result<(), String>) -> (lines: Vec<TerminalLine>)
    ensures
        lines.deep_view() == status_answer("mv"@, "Moved"@, outcome),
{
    status_lines("mv", "Moved", outcome)
}

} // verus!
