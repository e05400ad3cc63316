//! Transcript entries.

use vstd::prelude::*;

verus! {

/// How a transcript line is to be styled.
#[derive(Clone, Copy, Debug, PartialEq, Eq, Structural)]
pub enum LineType {
    Command,
    Output,
    Error,
    System,
}

/// One line of the transcript.
#[derive(Clone, Debug, PartialEq)]
pub struct TerminalLine {
    pub content: String,
    pub line_type: LineType,
}

impl View for TerminalLine {
    type V = (Seq<char>, LineType);

    open spec fn view(&self) -> (Seq<char>, LineType) {
        (self.content@, self.line_type)
    }
}

impl DeepView for TerminalLine {
    type V = (Seq<char>, LineType);

    open spec fn deep_view(&self) -> (Seq<char>, LineType) {
        self@
    }
}

impl TerminalLine {
    /// A line with the given content and kind.
    pub fn new(content: String, line_type: LineType) -> (line: TerminalLine)
        ensures
            line@ == (content@, line_type),
    {
        TerminalLine { content, line_type }
    }

    /// A line of text of the given kind.
    pub fn of(text: &str, line_type: LineType) -> (line: TerminalLine)
        ensures
            line@ == (text@, line_type),
    {
        TerminalLine { content: text.to_owned(), line_type }
    }

    /// A copy of this line.
    pub fn duplicate(&self) -> (line: TerminalLine)
        ensures
            line@ == self@,
    {
        TerminalLine { content: self.content.clone(), line_type: self.line_type }
    }
}

/// `texts` as transcript lines of one kind.
pub open spec fn lines_of_kind(texts: Seq<Seq<char>>, line_type: LineType) -> Seq<
    (Seq<char>, LineType),
> {
    texts.map_values(|text: Seq<char>| (text, line_type))
}

/// The texts of transcript lines.
pub open spec fn texts_of(lines: Seq<(Seq<char>, LineType)>) -> Seq<Seq<char>> {
    lines.map_values(|line: (Seq<char>, LineType)| line.0)
}

/// One line of the given kind.
pub fn single_line(text: String, line_type: LineType) -> (lines: Vec<TerminalLine>)
    ensures
        lines.deep_view() == seq![(text@, line_type)],
{
    let mut lines: Vec<TerminalLine> = Vec::new();
    lines.push(TerminalLine::new(text, line_type));
    assert(lines.deep_view() =~= seq![(text@, line_type)]);
    lines
}

/// One line of the given kind for each text, in order.
pub fn lines_from_texts(texts: &Vec<String>, line_type: LineType) -> (lines: Vec<TerminalLine>)
    ensures
        lines.deep_view() == lines_of_kind(texts.deep_view(), line_type),
{
    let mut lines: Vec<TerminalLine> = Vec::new();
    let mut i: usize = 0;
    assert(lines.deep_view() =~= lines_of_kind(texts.deep_view().take(0), line_type));
    while i < texts.len()
        invariant
            i <= texts.len(),
            lines.deep_view() == lines_of_kind(texts.deep_view().take(i as int), line_type),
        decreases texts.len() - i,
    {
        let ghost before = lines.deep_view();
        lines.push(TerminalLine::new(texts[i].clone(), line_type));
        assert(texts.deep_view()[i as int] == texts[i as int]@);
        assert(lines.deep_view() =~= before.push((texts[i as int]@, line_type)));
        assert(lines.deep_view() =~= lines_of_kind(
            texts.deep_view().take(i as int + 1),
            line_type,
        ));
        i += 1;
    }
    assert(texts.deep_view().take(i as int) =~= texts.deep_view());
    lines
}

/// One line of the given kind for each fixed text, in order.
pub fn static_lines(texts: &[&'static str], line_type: LineType) -> (lines: Vec<TerminalLine>)
    ensures
        lines.deep_view() == lines_of_kind(texts.deep_view(), line_type),
{
    let mut lines: Vec<TerminalLine> = Vec::new();
    let mut i: usize = 0;
    assert(lines.deep_view() =~= lines_of_kind(texts.deep_view().take(0), line_type));
    while i < texts.len()
        invariant
            i <= texts.len(),
            lines.deep_view() == lines_of_kind(texts.deep_view().take(i as int), line_type),
        decreases texts.len() - i,
    {
        let ghost before = lines.deep_view();
        lines.push(TerminalLine::of(texts[i], line_type));
        assert(texts.deep_view()[i as int] == texts[i as int]@);
        assert(lines.deep_view() =~= before.push((texts[i as int]@, line_type)));
        assert(lines.deep_view() =~= lines_of_kind(
            texts.deep_view().take(i as int + 1),
            line_type,
        ));
        i += 1;
    }
    assert(texts.deep_view().take(i as int) =~= texts.deep_view());
    lines
}

} // verus!
