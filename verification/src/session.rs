//! A shell session: working directory, command history and transcript.
//!
//! The session decides; it performs no I/O. `submit` takes a typed line,
//! answers the built-ins itself and says what is left for the caller to do:
//! probe a directory for `cd`, run an external command, or end the program.
//! The caller hands the outcome back through `complete_cd`, `append` and
//! `append_many`.

use vstd::prelude::*;
use crate::allowlist::is_allowed;
use crate::allowlist::ShellConfig;
use crate::buffer::capped;
use crate::buffer::LineBuffer;
use crate::buffer::MAX_LINES;
use crate::builtins::builtin_names;
use crate::builtins::help_lines;
use crate::builtins::help_text;
use crate::paths::strip_verbatim_prefix;
use crate::paths::without_verbatim_prefix;
use crate::router::command_name;
use crate::router::route_command;
use crate::router::routing_of;
use crate::router::Routing;
use crate::router::RoutingView;
use crate::state::lines_of_kind;
use crate::state::LineType;
use crate::state::TerminalLine;
use crate::text::followed_by;
use crate::text::trim;
use crate::text::trimmed;
use crate::tokenizer::tokens_of;
use crate::translator::external_plan;
use crate::translator::plan_external;
use crate::translator::ExternalPlan;
use crate::translator::ExternalPlanView;

verus! {

/// What is left to do after a line was submitted.
#[derive(Clone, Debug, PartialEq)]
pub enum Dispatch {
    /// The line was blank: nothing happened.
    Ignored,
    /// The session answered the line itself.
    Handled,
    /// The session is to end.
    Exit,
    /// `cd` with a target: resolve it against the working directory,
    /// canonicalize it, and report with `complete_cd`.
    ChangeDir(String),
    /// Carry out the plan and append what it yields.
    External(ExternalPlan),
}

/// The mathematical content of a `Dispatch`.
pub enum DispatchView {
    Ignored,
    Handled,
    Exit,
    ChangeDir(Seq<char>),
    External(ExternalPlanView),
}

impl View for Dispatch {
    type V = DispatchView;

    open spec fn view(&self) -> DispatchView {
        match self {
            Dispatch::Ignored => DispatchView::Ignored,
            Dispatch::Handled => DispatchView::Handled,
            Dispatch::Exit => DispatchView::Exit,
            Dispatch::ChangeDir(target) => DispatchView::ChangeDir(target@),
            Dispatch::External(plan) => DispatchView::External(plan@),
        }
    }
}

/// What canonicalizing the target of `cd` gave.
#[derive(Clone, Debug, PartialEq)]
pub enum CdProbe {
    /// The target is a directory; this is its canonical path.
    Directory(String),
    /// The target exists and is no directory.
    NotDirectory,
    /// The target could not be canonicalized; this is the system's message.
    Failed(String),
}

/// The state of a shell session.
pub struct Session {
    config: ShellConfig,
    cwd: String,
    history: Vec<String>,
    cursor: Option<usize>,
    transcript: LineBuffer,
}

/// The mathematical content of a `Session`.
pub struct SessionView {
    pub config: ShellConfig,
    pub cwd: Seq<char>,
    pub history: Seq<Seq<char>>,
    /// The history entry shown while navigating, or `None`.
    pub cursor: Option<int>,
    pub lines: Seq<(Seq<char>, LineType)>,
}

impl View for Session {
    type V = SessionView;

    closed spec fn view(&self) -> SessionView {
        SessionView {
            config: self.config,
            cwd: self.cwd@,
            history: self.history.deep_view(),
            cursor: match self.cursor {
                Some(i) => Some(i as int),
                None => None,
            },
            lines: self.transcript@,
        }
    }
}

/// The lines that greet the user.
pub open spec fn banner() -> Seq<(Seq<char>, LineType)> {
    seq![
        ("⚡ Blaze Terminal v0.1.0"@, LineType::System),
        ("Type 'help' for available commands."@, LineType::System),
        (""@, LineType::System),
    ]
}

/// The transcript line that echoes a submitted command.
pub open spec fn prompt_line(cwd: Seq<char>, cmd: Seq<char>) -> Seq<char> {
    cwd + " > "@ + cmd
}

/// The message for a program that the allowlist does not permit.
pub open spec fn denial_message(name: Seq<char>) -> Seq<char> {
    "Command '"@ + name + "' is not allowed. Type 'help' for a list of available commands."@
}

/// The transcript after the non-blank command `cmd` was submitted in the
/// directory `cwd`: the command is echoed, then the built-in acts.
pub open spec fn transcript_after(
    config: ShellConfig,
    cwd: Seq<char>,
    lines: Seq<(Seq<char>, LineType)>,
    cmd: Seq<char>,
) -> Seq<(Seq<char>, LineType)> {
    let echoed = capped(lines.push((prompt_line(cwd, cmd), LineType::Command)));
    match routing_of(config, cmd) {
        RoutingView::Clear => Seq::empty(),
        RoutingView::Help => capped(echoed + lines_of_kind(help_text(config), LineType::System)),
        RoutingView::Exit => echoed,
        RoutingView::Pwd => capped(echoed.push((cwd, LineType::Output))),
        RoutingView::ChangeDir(target) => if target.len() == 0 {
            capped(echoed.push((cwd, LineType::Output)))
        } else {
            echoed
        },
        RoutingView::Denied(name) => capped(echoed.push((denial_message(name), LineType::Error))),
        RoutingView::External { .. } => echoed,
    }
}

/// What is left to do after the non-blank command `cmd` was submitted in the
/// directory `cwd`.
pub open spec fn dispatch_after(config: ShellConfig, cwd: Seq<char>, cmd: Seq<char>) -> DispatchView {
    match routing_of(config, cmd) {
        RoutingView::Clear => DispatchView::Handled,
        RoutingView::Help => DispatchView::Handled,
        RoutingView::Exit => DispatchView::Exit,
        RoutingView::Pwd => DispatchView::Handled,
        RoutingView::ChangeDir(target) => if target.len() == 0 {
            DispatchView::Handled
        } else {
            DispatchView::ChangeDir(target)
        },
        RoutingView::Denied(_) => DispatchView::Handled,
        RoutingView::External { program, argv } => DispatchView::External(
            external_plan(config.platform, cwd, program, argv),
        ),
    }
}

/// The session after the line `input` was submitted.
pub open spec fn session_after(pre: SessionView, input: Seq<char>) -> SessionView {
    let cmd = trimmed(input);
    if cmd.len() == 0 {
        pre
    } else {
        SessionView {
            config: pre.config,
            cwd: pre.cwd,
            history: pre.history.push(cmd),
            cursor: None,
            lines: transcript_after(pre.config, pre.cwd, pre.lines, cmd),
        }
    }
}

/// Only `exit` ends the session, and a program is planned only for a name
/// that is no built-in and that the allowlist permits.
pub proof fn lemma_dispatch_respects_policy(config: ShellConfig, cwd: Seq<char>, cmd: Seq<char>)
    ensures
        dispatch_after(config, cwd, cmd) is Exit <==> command_name(tokens_of(cmd)) == "exit"@,
        dispatch_after(config, cwd, cmd) is External ==> {
            &&& is_allowed(config, command_name(tokens_of(cmd)))
            &&& !builtin_names().contains(command_name(tokens_of(cmd)))
        },
        dispatch_after(config, cwd, cmd) !is Ignored,
{
    reveal_strlit("help");
    reveal_strlit("clear");
    reveal_strlit("cls");
    reveal_strlit("cd");
    reveal_strlit("pwd");
    reveal_strlit("exit");
    let name = command_name(tokens_of(cmd));
    if name == "exit"@ {
        assert(name.len() == 4);
        assert(name[0] == 'e');
    }
    if builtin_names().contains(name) {
        let k = choose|k: int| 0 <= k < builtin_names().len() && builtin_names()[k] == name;
        assert(name == "help"@ || name == "clear"@ || name == "cls"@ || name == "cd"@ || name
            == "pwd"@ || name == "exit"@);
    }
}

/// The message for a `cd` target that is no directory.
pub open spec fn not_a_directory(target: Seq<char>) -> Seq<char> {
    "Not a directory: "@ + target
}

/// The message for a `cd` target that could not be canonicalized.
pub open spec fn cd_failure(target: Seq<char>, reason: Seq<char>) -> Seq<char> {
    "cd: "@ + target + ": "@ + reason
}

/// Where the history cursor stands after a step towards older entries: on
/// the newest entry when navigation starts, else one entry back, stopping at
/// the oldest. An empty history has nothing to show.
pub open spec fn cursor_back(history_len: int, cursor: Option<int>) -> Option<int> {
    if history_len == 0 {
        cursor
    } else {
        match cursor {
            None => Some(history_len - 1),
            Some(i) => Some(
                if i > 0 {
                    i - 1
                } else {
                    0
                },
            ),
        }
    }
}

/// Where the history cursor stands after a step towards newer entries: one
/// entry forward, and past the newest entry navigation ends.
pub open spec fn cursor_forward(history_len: int, cursor: Option<int>) -> Option<int> {
    match cursor {
        None => None,
        Some(i) => if i + 1 >= history_len {
            None
        } else {
            Some(i + 1)
        },
    }
}

/// The text that the input field shows for a cursor: the entry it points at,
/// or nothing.
pub open spec fn shown_entry(history: Seq<Seq<char>>, cursor: Option<int>) -> Seq<char> {
    match cursor {
        Some(i) => history[i],
        None => Seq::empty(),
    }
}

/// A key that the session reacts to.
#[derive(Clone, Copy, Debug, PartialEq, Eq, Structural)]
pub enum Key {
    Enter,
    ArrowUp,
    ArrowDown,
    Other,
}

/// What a key press led to.
#[derive(Clone, Debug, PartialEq)]
pub struct KeyOutcome {
    /// The new content of the input field, or `None` if it stays as it is.
    pub input: Option<String>,
    /// What is left for the caller to do.
    pub next: Dispatch,
}

impl Session {
    /// The invariant of a session: the transcript is within its cap, and a
    /// history cursor points at an entry.
    pub closed spec fn wf(&self) -> bool {
        &&& self.transcript.wf()
        &&& self.cursor matches Some(i) ==> i < self.history.len()
    }

    /// A new session in the directory `cwd`, with the commands of earlier
    /// sessions as its history and the banner as its transcript.
    pub fn new(config: ShellConfig, cwd: String, history: Vec<String>) -> (session: Session)
        ensures
            session.wf(),
            session@ == (SessionView {
                config,
                cwd: cwd@,
                history: history.deep_view(),
                cursor: None,
                lines: banner(),
            }),
    {
        let mut transcript = LineBuffer::new();
        transcript.append(TerminalLine::of("⚡ Blaze Terminal v0.1.0", LineType::System));
        transcript.append(TerminalLine::of("Type 'help' for available commands.", LineType::System));
        transcript.append(TerminalLine::of("", LineType::System));
        assert(transcript@ =~= banner());
        Session { config, cwd, history, cursor: None, transcript }
    }

    /// The configuration the session was made with.
    pub fn config(&self) -> (config: ShellConfig)
        ensures
            config == self@.config,
    {
        self.config
    }

    /// The working directory.
    pub fn current_dir(&self) -> (cwd: &str)
        ensures
            cwd@ == self@.cwd,
    {
        self.cwd.as_str()
    }

    /// The commands submitted so far, oldest first.
    pub fn history(&self) -> (history: &Vec<String>)
        ensures
            history.deep_view() == self@.history,
    {
        &self.history
    }

    /// The transcript, oldest line first.
    pub fn lines(&self) -> (lines: &Vec<TerminalLine>)
        requires
            self.wf(),
        ensures
            lines.deep_view() == self@.lines,
            lines.len() <= MAX_LINES,
    {
        self.transcript.lines()
    }

    /// Appends one line to the transcript.
    pub fn append(&mut self, line: TerminalLine)
        requires
            old(self).wf(),
        ensures
            final(self).wf(),
            final(self)@ == (SessionView {
                lines: capped(old(self)@.lines.push(line@)),
                ..old(self)@
            }),
    {
        self.transcript.append(line);
    }

    /// Appends lines to the transcript, in order.
    pub fn append_many(&mut self, lines: Vec<TerminalLine>)
        requires
            old(self).wf(),
        ensures
            final(self).wf(),
            final(self)@ == (SessionView {
                lines: capped(old(self)@.lines + lines.deep_view()),
                ..old(self)@
            }),
    {
        self.transcript.append_many(lines);
    }

    /// Submits a typed line.
    ///
    /// A blank line changes nothing. Any other line is trimmed, recorded in
    /// the history, and echoed behind the prompt; navigation of the history
    /// ends. Then the built-ins are answered, a program that is not allowed
    /// is denied with an error line, and an allowed program is planned for
    /// the caller to run.
    pub fn submit(&mut self, input: &str) -> (next: Dispatch)
        requires
            old(self).wf(),
        ensures
            final(self).wf(),
            final(self)@ == session_after(old(self)@, input@),
            next@ == if trimmed(input@).len() == 0 {
                DispatchView::Ignored
            } else {
                dispatch_after(old(self)@.config, old(self)@.cwd, trimmed(input@))
            },
    {
        let cmd = trim(input);
        if cmd.as_str().is_empty() {
            return Dispatch::Ignored;
        }
        let ghost before = self@;
        self.history.push(cmd.clone());
        self.cursor = None;
        assert(self.history.deep_view() =~= before.history.push(cmd@));
        let mut echo = followed_by(self.cwd.as_str(), " > ");
        echo.append(cmd.as_str());
        self.transcript.append(TerminalLine::new(echo, LineType::Command));
        match route_command(self.config, cmd.as_str()) {
            Routing::Clear => {
                self.transcript.clear();
                Dispatch::Handled
            },
            Routing::Help => {
                self.transcript.append_many(help_lines(self.config));
                Dispatch::Handled
            },
            Routing::Exit => Dispatch::Exit,
            Routing::Pwd => {
                self.transcript.append(TerminalLine::of(self.cwd.as_str(), LineType::Output));
                Dispatch::Handled
            },
            Routing::ChangeDir(target) => {
                if target.as_str().is_empty() {
                    self.transcript.append(TerminalLine::of(self.cwd.as_str(), LineType::Output));
                    Dispatch::Handled
                } else {
                    Dispatch::ChangeDir(target)
                }
            },
            Routing::Denied(name) => {
                let mut message = followed_by("Command '", name.as_str());
                message.append(
                    "' is not allowed. Type 'help' for a list of available commands.",
                );
                self.transcript.append(TerminalLine::new(message, LineType::Error));
                Dispatch::Handled
            },
            Routing::External { program, argv } => Dispatch::External(
                plan_external(
                    self.config.platform,
                    self.cwd.as_str(),
                    program.as_str(),
                    argv.as_slice(),
                ),
            ),
        }
    }

    /// Steps towards older history entries and returns the entry to show, or
    /// `None`, with nothing changed, if the history is empty.
    pub fn history_previous(&mut self) -> (shown: Option<String>)
        requires
            old(self).wf(),
        ensures
            final(self).wf(),
            final(self)@ == (SessionView {
                cursor: cursor_back(old(self)@.history.len() as int, old(self)@.cursor),
                ..old(self)@
            }),
            match shown {
                Some(entry) => old(self)@.history.len() > 0 && entry@ == shown_entry(
                    old(self)@.history,
                    final(self)@.cursor,
                ),
                None => old(self)@.history.len() == 0,
            },
    {
        if self.history.len() == 0 {
            return None;
        }
        let at: usize = match self.cursor {
            None => self.history.len() - 1,
            Some(i) => if i > 0 {
                i - 1
            } else {
                0
            },
        };
        self.cursor = Some(at);
        assert(self.history.deep_view()[at as int] == self.history[at as int]@);
        Some(self.history[at].clone())
    }

    /// Steps towards newer history entries and returns the text to show: the
    /// next entry, or the empty text once the newest entry is left behind.
    /// Returns `None`, with nothing changed, if no navigation is under way.
    pub fn history_next(&mut self) -> (shown: Option<String>)
        requires
            old(self).wf(),
        ensures
            final(self).wf(),
            final(self)@ == (SessionView {
                cursor: cursor_forward(old(self)@.history.len() as int, old(self)@.cursor),
                ..old(self)@
            }),
            match shown {
                Some(entry) => old(self)@.cursor is Some && entry@ == shown_entry(
                    old(self)@.history,
                    final(self)@.cursor,
                ),
                None => old(self)@.cursor is None,
            },
    {
        match self.cursor {
            None => None,
            Some(i) => {
                if i + 1 >= self.history.len() {
                    self.cursor = None;
                    Some(String::new())
                } else {
                    self.cursor = Some(i + 1);
                    assert(self.history.deep_view()[i as int + 1] == self.history[i as int + 1]@);
                    Some(self.history[i + 1].clone())
                }
            },
        }
    }

    /// Reacts to a key pressed while the input field holds `input`.
    ///
    /// Enter submits the line and, unless it was blank, empties the input
    /// field. The arrow keys walk through the history and put the entry they
    /// reach into the input field. Every other key is left to the input field.
    pub fn handle_key(&mut self, key: Key, input: &str) -> (outcome: KeyOutcome)
        requires
            old(self).wf(),
        ensures
            final(self).wf(),
            match key {
                Key::Enter => {
                    &&& final(self)@ == session_after(old(self)@, input@)
                    &&& if trimmed(input@).len() == 0 {
                        outcome.next@ == DispatchView::Ignored && outcome.input is None
                    } else {
                        &&& outcome.next@ == dispatch_after(
                            old(self)@.config,
                            old(self)@.cwd,
                            trimmed(input@),
                        )
                        &&& outcome.input matches Some(text)
                        &&& text@.len() == 0
                    }
                },
                Key::ArrowUp => {
                    &&& outcome.next@ == DispatchView::Handled
                    &&& final(self)@ == (SessionView {
                        cursor: cursor_back(old(self)@.history.len() as int, old(self)@.cursor),
                        ..old(self)@
                    })
                    &&& match outcome.input {
                        Some(entry) => old(self)@.history.len() > 0 && entry@ == shown_entry(
                            old(self)@.history,
                            final(self)@.cursor,
                        ),
                        None => old(self)@.history.len() == 0,
                    }
                },
                Key::ArrowDown => {
                    &&& outcome.next@ == DispatchView::Handled
                    &&& final(self)@ == (SessionView {
                        cursor: cursor_forward(old(self)@.history.len() as int, old(self)@.cursor),
                        ..old(self)@
                    })
                    &&& match outcome.input {
                        Some(entry) => old(self)@.cursor is Some && entry@ == shown_entry(
                            old(self)@.history,
                            final(self)@.cursor,
                        ),
                        None => old(self)@.cursor is None,
                    }
                },
                Key::Other => {
                    &&& outcome.next@ == DispatchView::Handled
                    &&& outcome.input is None
                    &&& final(self)@ == old(self)@
                },
            },
    {
        match key {
            Key::Enter => {
                let next = self.submit(input);
                let input = match next {
                    Dispatch::Ignored => None,
                    _ => Some(String::new()),
                };
                KeyOutcome { input, next }
            },
            Key::ArrowUp => KeyOutcome { input: self.history_previous(), next: Dispatch::Handled },
            Key::ArrowDown => KeyOutcome { input: self.history_next(), next: Dispatch::Handled },
            Key::Other => KeyOutcome { input: None, next: Dispatch::Handled },
        }
    }

    /// Finishes a `cd` whose target the caller has probed.
    ///
    /// A directory becomes the working directory, shown without the verbatim
    /// marker of a canonical Windows path, and the transcript stays as it is.
    /// Anything else leaves the working directory alone and adds one error
    /// line that names the target as it was typed, and the system's message
    /// where there is one.
    pub fn complete_cd(&mut self, target: &str, probe: CdProbe)
        requires
            old(self).wf(),
        ensures
            final(self).wf(),
            final(self)@ == match probe {
                CdProbe::Directory(path) => SessionView {
                    cwd: without_verbatim_prefix(path@),
                    ..old(self)@
                },
                CdProbe::NotDirectory => SessionView {
                    lines: capped(
                        old(self)@.lines.push((not_a_directory(target@), LineType::Error)),
                    ),
                    ..old(self)@
                },
                CdProbe::Failed(reason) => SessionView {
                    lines: capped(
                        old(self)@.lines.push((cd_failure(target@, reason@), LineType::Error)),
                    ),
                    ..old(self)@
                },
            },
    {
        match probe {
            CdProbe::Directory(path) => {
                self.cwd = strip_verbatim_prefix(path.as_str());
            },
            CdProbe::NotDirectory => {
                let message = followed_by("Not a directory: ", target);
                self.transcript.append(TerminalLine::new(message, LineType::Error));
            },
            CdProbe::Failed(reason) => {
                let mut message = followed_by("cd: ", target);
                message.append(": ");
                message.append(reason.as_str());
                self.transcript.append(TerminalLine::new(message, LineType::Error));
            },
        }
    }
}

} // verus!
