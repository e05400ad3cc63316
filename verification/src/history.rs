//! The command history that outlives a session.
//!
//! The history file holds one command per line and only ever grows. Reading
//! and writing the file is the caller's part; which entries a session starts
//! with, and what is written for a command, is decided here.

use vstd::prelude::*;
use crate::text::followed_by;
use crate::text::lines_of;
use crate::text::split_lines;

verus! {

/// The lines of `lines` that are not empty, in order.
pub open spec fn non_empty(lines: Seq<Seq<char>>) -> Seq<Seq<char>> {
    lines.filter(|line: Seq<char>| line.len() > 0)
}

/// The last `limit` items of `entries`, or all of them if there are no more.
pub open spec fn newest<T>(entries: Seq<T>, limit: int) -> Seq<T> {
    if entries.len() > limit {
        entries.skip(entries.len() - limit)
    } else {
        entries
    }
}

/// The entries that a session starts with: the `limit` most recent non-empty
/// lines of the history file, oldest first.
pub open spec fn loaded_history(content: Seq<char>, limit: int) -> Seq<Seq<char>> {
    newest(non_empty(lines_of(content)), limit)
}

/// Picks the history entries that a session starts with from the content
/// of the history file. `None` stands for a file that could not be read,
/// which gives an empty history and is no error.
pub fn load_history(content: Option<&str>, limit: usize) -> (entries: Vec<String>)
    ensures
        entries.deep_view() == match content {
            Some(text) => loaded_history(text@, limit as int),
            None => Seq::empty(),
        },
        entries.len() <= limit,
{
    let text = match content {
        Some(text) => text,
        None => {
            let entries: Vec<String> = Vec::new();
            assert(entries.deep_view() =~= Seq::<Seq<char>>::empty());
            return entries;
        },
    };
    let lines = split_lines(text);
    let mut kept: Vec<String> = Vec::new();
    let mut i: usize = 0;
    proof {
        reveal(Seq::filter);
        assert(lines.deep_view().take(0) =~= Seq::<Seq<char>>::empty());
        assert(kept.deep_view() =~= non_empty(lines.deep_view().take(0)));
    }
    while i < lines.len()
        invariant
            i <= lines.len(),
            kept.deep_view() == non_empty(lines.deep_view().take(i as int)),
        decreases lines.len() - i,
    {
        let ghost seen = lines.deep_view().take(i as int);
        let ghost next = lines.deep_view().take(i as int + 1);
        let ghost before = kept.deep_view();
        proof {
            reveal(Seq::filter);
            assert(next.drop_last() =~= seen);
            assert(next.last() == lines[i as int]@);
        }
        if !lines[i].as_str().is_empty() {
            kept.push(lines[i].clone());
            assert(kept.deep_view() =~= before.push(lines[i as int]@));
        }
        i += 1;
    }
    assert(lines.deep_view().take(i as int) =~= lines.deep_view());
    if kept.len() > limit {
        let skipped = kept.len() - limit;
        let ghost all = kept.deep_view();
        let entries = kept.split_off(skipped);
        assert(entries.deep_view() =~= all.skip(skipped as int));
        entries
    } else {
        kept
    }
}

/// What is appended to the history file for the command `cmd`: the command
/// and a line feed.
pub fn history_record(cmd: &str) -> (record: String)
    ensures
        record@ == cmd@ + seq!['\n'],
{
    let record = followed_by(cmd, "\n");
    proof {
        reveal_strlit("\n");
        assert("\n"@ =~= seq!['\n']);
    }
    record
}

} // verus!
