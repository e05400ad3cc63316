//! Classifying a command line: built-in, denied or external.

use vstd::prelude::*;
use crate::allowlist::is_allowed;
use crate::allowlist::is_allowed_external;
use crate::allowlist::ShellConfig;
use crate::text::join_from;
use crate::text::joined;
use crate::text::lowercase_of;
use crate::text::rest_of;
use crate::text::str_eq;
use crate::text::to_lowercase;
use crate::tokenizer::split_args;
use crate::tokenizer::tokens_of;

verus! {

/// What a command line asks for.
#[derive(Clone, Debug, PartialEq)]
pub enum Routing {
    /// `clear` or `cls`: empty the transcript.
    Clear,
    /// `help`: show the help text.
    Help,
    /// `exit`: end the session.
    Exit,
    /// `pwd`: show the working directory.
    Pwd,
    /// `cd`: change to the directory named by the rest of the line; an empty
    /// target asks for the working directory to be shown.
    ChangeDir(String),
    /// A program that the allowlist does not permit.
    Denied(String),
    /// A permitted program, with the tokens of the line; `argv[0]` is the
    /// command as it was typed.
    External { program: String, argv: Vec<String> },
}

/// The mathematical content of a `Routing`.
pub enum RoutingView {
    Clear,
    Help,
    Exit,
    Pwd,
    ChangeDir(Seq<char>),
    Denied(Seq<char>),
    External { program: Seq<char>, argv: Seq<Seq<char>> },
}

impl View for Routing {
    type V = RoutingView;

    open spec fn view(&self) -> RoutingView {
        match self {
            Routing::Clear => RoutingView::Clear,
            Routing::Help => RoutingView::Help,
            Routing::Exit => RoutingView::Exit,
            Routing::Pwd => RoutingView::Pwd,
            Routing::ChangeDir(target) => RoutingView::ChangeDir(target@),
            Routing::Denied(name) => RoutingView::Denied(name@),
            Routing::External { program, argv } => RoutingView::External {
                program: program@,
                argv: argv.deep_view(),
            },
        }
    }
}

/// The name that selects the command: the first token in lowercase, or the
/// empty name if there is no token.
pub open spec fn command_name(argv: Seq<Seq<char>>) -> Seq<char> {
    if argv.len() > 0 {
        lowercase_of(argv[0])
    } else {
        Seq::empty()
    }
}

/// What the command line `cmd` asks for under `config`. Built-ins are
/// recognised first, whatever the allowlist says; every other name is held
/// against the allowlist.
pub open spec fn routing_of(config: ShellConfig, cmd: Seq<char>) -> RoutingView {
    let argv = tokens_of(cmd);
    let name = command_name(argv);
    if name == "clear"@ || name == "cls"@ {
        RoutingView::Clear
    } else if name == "help"@ {
        RoutingView::Help
    } else if name == "exit"@ {
        RoutingView::Exit
    } else if name == "cd"@ {
        RoutingView::ChangeDir(joined(rest_of(argv), " "@))
    } else if name == "pwd"@ {
        RoutingView::Pwd
    } else if !is_allowed(config, name) {
        RoutingView::Denied(name)
    } else {
        RoutingView::External { program: name, argv }
    }
}

/// Classifies the command line `cmd`.
pub fn route_command(config: ShellConfig, cmd: &str) -> (routing: Routing)
    ensures
        routing@ == routing_of(config, cmd@),
{
    let argv = split_args(cmd);
    let name = if argv.len() > 0 {
        assert(argv.deep_view()[0] == argv[0]@);
        to_lowercase(argv[0].as_str())
    } else {
        String::new()
    };
    assert(name@ =~= command_name(argv.deep_view()));
    if str_eq(name.as_str(), "clear") || str_eq(name.as_str(), "cls") {
        Routing::Clear
    } else if str_eq(name.as_str(), "help") {
        Routing::Help
    } else if str_eq(name.as_str(), "exit") {
        Routing::Exit
    } else if str_eq(name.as_str(), "cd") {
        let target = if argv.len() > 0 {
            assert(argv.deep_view().skip(1) =~= rest_of(argv.deep_view()));
            join_from(argv.as_slice(), 1, " ")
        } else {
            assert(argv.deep_view().skip(0) =~= rest_of(argv.deep_view()));
            join_from(argv.as_slice(), 0, " ")
        };
        Routing::ChangeDir(target)
    } else if str_eq(name.as_str(), "pwd") {
        Routing::Pwd
    } else if !is_allowed_external(config, name.as_str()) {
        Routing::Denied(name)
    } else {
        Routing::External { program: name, argv }
    }
}

} // verus!
