//! The bounded transcript.
//!
//! The transcript keeps its lines in the order in which they were appended
//! and never holds more than `MAX_LINES` of them: an append that would
//! overflow drops the oldest lines.

use vstd::prelude::*;
use crate::state::TerminalLine;
use crate::state::LineType;

verus! {

/// The most lines the transcript ever holds.
pub const MAX_LINES: usize = 5000;

/// The newest `MAX_LINES` items of `s`, or all of `s` if it has no more.
pub open spec fn capped<T>(s: Seq<T>) -> Seq<T> {
    if s.len() > MAX_LINES {
        s.skip(s.len() - MAX_LINES)
    } else {
        s
    }
}

/// What remains after the items of `entries` were appended to `start` one
/// at a time, the cap being enforced after each.
pub open spec fn append_each<T>(start: Seq<T>, entries: Seq<T>) -> Seq<T>
    decreases entries.len(),
{
    if entries.len() == 0 {
        start
    } else {
        append_each(capped(start.push(entries[0])), entries.drop_first())
    }
}

/// Appends `line` and drops the oldest lines beyond `MAX_LINES`.
pub fn push_line_trim(lines: &mut Vec<TerminalLine>, line: TerminalLine)
    ensures
        final(lines)@ == capped(old(lines)@.push(line)),
{
    lines.push(line);
    if lines.len() > MAX_LINES {
        let excess = lines.len() - MAX_LINES;
        let kept = lines.split_off(excess);
        *lines = kept;
    }
}

/// The transcript: an ordered record of at most `MAX_LINES` lines.
pub struct LineBuffer {
    lines: Vec<TerminalLine>,
}

impl View for LineBuffer {
    type V = Seq<(Seq<char>, LineType)>;

    closed spec fn view(&self) -> Seq<(Seq<char>, LineType)> {
        self.lines.deep_view()
    }
}

impl LineBuffer {
    /// The invariant of the transcript: it holds at most `MAX_LINES` lines.
    pub closed spec fn wf(&self) -> bool {
        self.lines.len() <= MAX_LINES
    }

    /// An empty transcript.
    pub fn new() -> (buffer: LineBuffer)
        ensures
            buffer.wf(),
            buffer@ == Seq::<(Seq<char>, LineType)>::empty(),
    {
        let buffer = LineBuffer { lines: Vec::new() };
        assert(buffer@ =~= Seq::empty());
        buffer
    }

    /// The number of lines held, never more than `MAX_LINES`.
    pub fn len(&self) -> (n: usize)
        requires
            self.wf(),
        ensures
            n == self@.len(),
            n <= MAX_LINES,
    {
        self.lines.len()
    }

    /// The lines held, oldest first.
    pub fn lines(&self) -> (lines: &Vec<TerminalLine>)
        requires
            self.wf(),
        ensures
            lines.deep_view() == self@,
            lines.len() <= MAX_LINES,
    {
        &self.lines
    }

    /// Appends `entry`; on overflow the oldest line leaves.
    pub fn append(&mut self, entry: TerminalLine)
        requires
            old(self).wf(),
        ensures
            final(self).wf(),
            final(self)@ == capped(old(self)@.push(entry@)),
    {
        let ghost before = self.lines@;
        push_line_trim(&mut self.lines, entry);
        assert(self.lines.deep_view() =~= capped(before.push(entry)).map_values(
            |l: TerminalLine| l@,
        ));
        assert(self@ =~= capped(old(self)@.push(entry@)));
    }

    /// Appends the lines of `entries` in order, enforcing the cap after each.
    pub fn append_many(&mut self, entries: Vec<TerminalLine>)
        requires
            old(self).wf(),
        ensures
            final(self).wf(),
            final(self)@ == capped(old(self)@ + entries.deep_view()),
            final(self)@ == append_each(old(self)@, entries.deep_view()),
    {
        let ghost added = entries.deep_view();
        proof {
            assert(old(self)@ + added.take(0) =~= old(self)@);
        }
        for line in it: entries
            invariant
                added == it.seq().map_values(|l: TerminalLine| l@),
                self.wf(),
                old(self)@.len() <= MAX_LINES,
                self@ == capped(old(self)@ + added.take(it.index())),
        {
            proof {
                let i = it.index();
                lemma_capped_absorbs(old(self)@ + added.take(i), seq![line@]);
                assert(added.take(i + 1) =~= added.take(i).push(line@));
                assert(old(self)@ + added.take(i + 1) =~= (old(self)@ + added.take(i)) + seq![
                    line@,
                ]);
                assert(self@.push(line@) =~= self@ + seq![line@]);
            }
            self.append(line);
        }
        proof {
            assert(added.take(added.len() as int) =~= added);
            lemma_append_each(old(self)@, added);
        }
    }

    /// Empties the transcript, whatever it holds.
    pub fn clear(&mut self)
        ensures
            final(self).wf(),
            final(self)@ == Seq::<(Seq<char>, LineType)>::empty(),
    {
        self.lines.clear();
        assert(self@ =~= Seq::empty());
    }

    /// A well-formed transcript is within the cap.
    pub proof fn lemma_within_cap(&self)
        requires
            self.wf(),
        ensures
            self@.len() <= MAX_LINES,
    {
    }
}

/// Capping before more items arrive changes nothing once the cap is applied
/// again.
pub proof fn lemma_capped_absorbs<T>(a: Seq<T>, b: Seq<T>)
    ensures
        capped(capped(a) + b) == capped(a + b),
{
    assert(capped(capped(a) + b) =~= capped(a + b));
}

/// Appending one at a time to a transcript within the cap leaves the newest
/// `MAX_LINES` of everything, in the order of arrival.
pub proof fn lemma_append_each<T>(start: Seq<T>, entries: Seq<T>)
    requires
        start.len() <= MAX_LINES,
    ensures
        append_each(start, entries) == capped(start + entries),
    decreases entries.len(),
{
    if entries.len() == 0 {
        assert(start + entries =~= start);
    } else {
        let pushed = start.push(entries[0]);
        lemma_append_each(capped(pushed), entries.drop_first());
        lemma_capped_absorbs(pushed, entries.drop_first());
        assert(pushed + entries.drop_first() =~= start + entries);
    }
}

/// Appending `MAX_LINES + k` entries leaves exactly `MAX_LINES` of them: the
/// last `MAX_LINES` appended, in the order of their arrival, whatever the transcript
/// held before.
pub proof fn lemma_overflow_keeps_newest<T>(start: Seq<T>, entries: Seq<T>, k: nat)
    requires
        start.len() <= MAX_LINES,
        entries.len() == MAX_LINES + k,
    ensures
        append_each(start, entries).len() == MAX_LINES,
        append_each(start, entries) == entries.skip(k as int),
{
    lemma_append_each(start, entries);
    assert(capped(start + entries) =~= entries.skip(k as int));
}

} // verus!
