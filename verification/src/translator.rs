//! From an allowed command to what is to be done on this platform.
//!
//! On Unix the program named by the user is started as it is and its output
//! is streamed. On Windows the common Unix-flavoured names are answered by
//! direct filesystem operations or mapped to their Windows equivalents. No
//! command is ever handed to a shell: only names and argument lists are
//! substituted.
//!
//! Nothing here touches the filesystem or starts a process. The functions
//! return a plan, and the caller carries it out.

use vstd::prelude::*;
use crate::allowlist::Platform;
use crate::paths::resolve_in_dir;
use crate::paths::resolved_in;
use crate::state::LineType;
use crate::state::TerminalLine;
use crate::text::followed_by;
use crate::text::join_from;
use crate::text::joined;
use crate::text::rest_of;
use crate::text::str_eq;
use crate::text::tail_of;

verus! {

/// How external programs are run.
#[derive(Clone, Copy, Debug, PartialEq, Eq, Structural)]
pub enum ExecutionStrategy {
    /// The program runs to its end under a time limit, and its output is
    /// shown afterwards.
    Blocking,
    /// The output of the program is shown line by line as it arrives.
    Streaming,
}

/// The strategy of a platform: streaming on Unix, blocking on Windows.
pub open spec fn strategy_of(platform: Platform) -> ExecutionStrategy {
    match platform {
        Platform::Unix => ExecutionStrategy::Streaming,
        Platform::Windows => ExecutionStrategy::Blocking,
    }
}

/// The strategy by which `platform` runs external programs.
pub fn execution_strategy(platform: Platform) -> (strategy: ExecutionStrategy)
    ensures
        strategy == strategy_of(platform),
{
    match platform {
        Platform::Unix => ExecutionStrategy::Streaming,
        Platform::Windows => ExecutionStrategy::Blocking,
    }
}

/// A program to start: its name, its arguments and the directory to start it
/// in.
#[derive(Clone, Debug, PartialEq)]
pub struct ExecutionRequest {
    pub program: String,
    pub args: Vec<String>,
    pub working_dir: String,
}

/// The mathematical content of an `ExecutionRequest`.
pub struct ExecutionRequestView {
    pub program: Seq<char>,
    pub args: Seq<Seq<char>>,
    pub working_dir: Seq<char>,
}

impl View for ExecutionRequest {
    type V = ExecutionRequestView;

    open spec fn view(&self) -> ExecutionRequestView {
        ExecutionRequestView {
            program: self.program@,
            args: self.args.deep_view(),
            working_dir: self.working_dir@,
        }
    }
}

/// A filesystem operation that answers a command on Windows.
#[derive(Clone, Debug, PartialEq)]
pub enum FsRequest {
    ListDir { path: String },
    MakeDir { path: String },
    Remove { path: String },
    Rename { from: String, to: String },
    ReadFile { path: String },
    Grep { pattern: String, path: String },
}

/// The mathematical content of an `FsRequest`.
pub enum FsRequestView {
    ListDir { path: Seq<char> },
    MakeDir { path: Seq<char> },
    Remove { path: Seq<char> },
    Rename { from: Seq<char>, to: Seq<char> },
    ReadFile { path: Seq<char> },
    Grep { pattern: Seq<char>, path: Seq<char> },
}

impl View for FsRequest {
    type V = FsRequestView;

    open spec fn view(&self) -> FsRequestView {
        match self {
            FsRequest::ListDir { path } => FsRequestView::ListDir { path: path@ },
            FsRequest::MakeDir { path } => FsRequestView::MakeDir { path: path@ },
            FsRequest::Remove { path } => FsRequestView::Remove { path: path@ },
            FsRequest::Rename { from, to } => FsRequestView::Rename { from: from@, to: to@ },
            FsRequest::ReadFile { path } => FsRequestView::ReadFile { path: path@ },
            FsRequest::Grep { pattern, path } => FsRequestView::Grep {
                pattern: pattern@,
                path: path@,
            },
        }
    }
}

/// What answers an allowed command on Windows.
#[derive(Clone, Debug, PartialEq)]
pub enum WindowsPlan {
    /// The answer is known already.
    Answer(Vec<TerminalLine>),
    /// A filesystem operation, whose outcome becomes the answer.
    Fs(FsRequest),
    /// The name of the current user.
    WhoAmI,
    /// A program to run to its end, under the time limit.
    Spawn(ExecutionRequest),
}

/// The mathematical content of a `WindowsPlan`.
pub enum WindowsPlanView {
    Answer(Seq<(Seq<char>, LineType)>),
    Fs(FsRequestView),
    WhoAmI,
    Spawn(ExecutionRequestView),
}

impl View for WindowsPlan {
    type V = WindowsPlanView;

    open spec fn view(&self) -> WindowsPlanView {
        match self {
            WindowsPlan::Answer(lines) => WindowsPlanView::Answer(lines.deep_view()),
            WindowsPlan::Fs(request) => WindowsPlanView::Fs(request@),
            WindowsPlan::WhoAmI => WindowsPlanView::WhoAmI,
            WindowsPlan::Spawn(request) => WindowsPlanView::Spawn(request@),
        }
    }
}

/// What runs an allowed external command.
#[derive(Clone, Debug, PartialEq)]
pub enum ExternalPlan {
    /// Start the program and forward its output line by line.
    Stream(ExecutionRequest),
    /// Carry out the Windows plan and append its answer.
    Windows(WindowsPlan),
}

/// The mathematical content of an `ExternalPlan`.
pub enum ExternalPlanView {
    Stream(ExecutionRequestView),
    Windows(WindowsPlanView),
}

impl View for ExternalPlan {
    type V = ExternalPlanView;

    open spec fn view(&self) -> ExternalPlanView {
        match self {
            ExternalPlan::Stream(request) => ExternalPlanView::Stream(request@),
            ExternalPlan::Windows(plan) => ExternalPlanView::Windows(plan@),
        }
    }
}

/// An answer of one error line.
pub open spec fn error_answer(text: Seq<char>) -> WindowsPlanView {
    WindowsPlanView::Answer(seq![(text, LineType::Error)])
}

/// The filesystem plan for `program`, if it is one of the commands that
/// Windows answers from the filesystem. `argv[0]` is the command itself.
pub open spec fn windows_fs_plan(cwd: Seq<char>, program: Seq<char>, argv: Seq<Seq<char>>) -> Option<
    WindowsPlanView,
> {
    if program == "dir"@ || program == "ls"@ {
        let target = if argv.len() > 1 {
            argv[1]
        } else {
            "."@
        };
        Some(WindowsPlanView::Fs(FsRequestView::ListDir { path: resolved_in(cwd, target) }))
    } else if program == "mkdir"@ {
        if argv.len() < 2 {
            Some(error_answer("Usage: mkdir <dir>"@))
        } else {
            Some(WindowsPlanView::Fs(FsRequestView::MakeDir { path: resolved_in(cwd, argv[1]) }))
        }
    } else if program == "rm"@ || program == "del"@ {
        if argv.len() < 2 {
            Some(error_answer("Usage: rm [-r] <path>"@))
        } else {
            // The flag is accepted and changes nothing: what the target is
            // decides how it is removed.
            let at: int = if argv[1] == "-r"@ || argv[1] == "-R"@ {
                2
            } else {
                1
            };
            if argv.len() <= at {
                Some(error_answer("Usage: rm [-r] <path>"@))
            } else {
                Some(WindowsPlanView::Fs(FsRequestView::Remove { path: resolved_in(cwd, argv[at]) }))
            }
        }
    } else if program == "mv"@ {
        if argv.len() < 3 {
            Some(error_answer("Usage: mv <from> <to>"@))
        } else {
            Some(
                WindowsPlanView::Fs(
                    FsRequestView::Rename {
                        from: resolved_in(cwd, argv[1]),
                        to: resolved_in(cwd, argv[2]),
                    },
                ),
            )
        }
    } else if program == "cat"@ || program == "type"@ {
        if argv.len() < 2 {
            Some(error_answer("Usage: cat <file>"@))
        } else {
            Some(WindowsPlanView::Fs(FsRequestView::ReadFile { path: resolved_in(cwd, argv[1]) }))
        }
    } else if program == "grep"@ {
        if argv.len() < 3 {
            Some(error_answer("Usage: grep <pattern> <file>"@))
        } else {
            Some(
                WindowsPlanView::Fs(
                    FsRequestView::Grep { pattern: argv[1], path: resolved_in(cwd, argv[2]) },
                ),
            )
        }
    } else {
        None
    }
}

/// The plan for `program`, if it is one of the commands that Windows answers
/// in-process or by running a program. `ip` runs `ipconfig`.
pub open spec fn windows_process_plan(
    cwd: Seq<char>,
    program: Seq<char>,
    argv: Seq<Seq<char>>,
) -> Option<WindowsPlanView> {
    if program == "echo"@ {
        Some(WindowsPlanView::Answer(seq![(joined(rest_of(argv), " "@), LineType::Output)]))
    } else if program == "whoami"@ {
        Some(WindowsPlanView::WhoAmI)
    } else if program == "vim"@ {
        Some(error_answer("vim is not supported in this UI (interactive TTY required)."@))
    } else if program == "ip"@ {
        Some(
            WindowsPlanView::Spawn(
                ExecutionRequestView {
                    program: "ipconfig"@,
                    args: rest_of(argv),
                    working_dir: cwd,
                },
            ),
        )
    } else if program == "ipconfig"@ || program == "curl"@ || program == "wget"@ {
        Some(
            WindowsPlanView::Spawn(
                ExecutionRequestView { program, args: rest_of(argv), working_dir: cwd },
            ),
        )
    } else {
        None
    }
}

/// The plan that answers `program` on Windows: the filesystem plan, else the
/// process plan, else a refusal.
pub open spec fn windows_plan(cwd: Seq<char>, program: Seq<char>, argv: Seq<Seq<char>>) -> WindowsPlanView {
    match windows_fs_plan(cwd, program, argv) {
        Some(plan) => plan,
        None => match windows_process_plan(cwd, program, argv) {
            Some(plan) => plan,
            None => error_answer("Unhandled command: "@ + program),
        },
    }
}

/// The plan that runs `program` on `platform`: under the streaming strategy
/// the program itself with the arguments behind the command name, under the
/// blocking strategy the Windows plan.
pub open spec fn external_plan(
    platform: Platform,
    cwd: Seq<char>,
    program: Seq<char>,
    argv: Seq<Seq<char>>,
) -> ExternalPlanView {
    match strategy_of(platform) {
        ExecutionStrategy::Streaming => ExternalPlanView::Stream(
            ExecutionRequestView { program, args: rest_of(argv), working_dir: cwd },
        ),
        ExecutionStrategy::Blocking => ExternalPlanView::Windows(windows_plan(cwd, program, argv)),
    }
}

/// A plan that answers with one error line.
fn answer_error(text: &str) -> (plan: WindowsPlan)
    ensures
        plan@ == error_answer(text@),
{
    let mut lines: Vec<TerminalLine> = Vec::new();
    lines.push(TerminalLine::of(text, LineType::Error));
    assert(lines.deep_view() =~= seq![(text@, LineType::Error)]);
    WindowsPlan::Answer(lines)
}

/// Plans the commands that Windows answers from the filesystem: `dir`, `ls`,
/// `mkdir`, `rm`, `del`, `mv`, `cat`, `type` and `grep`. Missing arguments
/// give a usage line; any other program gives `None`.
pub fn handle_windows_fs_command(cwd: &str, program: &str, argv: &[String]) -> (plan: Option<
    WindowsPlan,
>)
    ensures
        match plan {
            Some(p) => windows_fs_plan(cwd@, program@, argv.deep_view()) == Some(p@),
            None => windows_fs_plan(cwd@, program@, argv.deep_view()) is None,
        },
{
    if str_eq(program, "dir") || str_eq(program, "ls") {
        let path = if argv.len() > 1 {
            assert(argv.deep_view()[1] == argv[1]@);
            resolve_in_dir(cwd, argv[1].as_str())
        } else {
            resolve_in_dir(cwd, ".")
        };
        Some(WindowsPlan::Fs(FsRequest::ListDir { path }))
    } else if str_eq(program, "mkdir") {
        if argv.len() < 2 {
            Some(answer_error("Usage: mkdir <dir>"))
        } else {
            assert(argv.deep_view()[1] == argv[1]@);
            Some(WindowsPlan::Fs(FsRequest::MakeDir { path: resolve_in_dir(cwd, argv[1].as_str()) }))
        }
    } else if str_eq(program, "rm") || str_eq(program, "del") {
        if argv.len() < 2 {
            return Some(answer_error("Usage: rm [-r] <path>"));
        }
        assert(argv.deep_view()[1] == argv[1]@);
        let at: usize = if str_eq(argv[1].as_str(), "-r") || str_eq(argv[1].as_str(), "-R") {
            2
        } else {
            1
        };
        if argv.len() <= at {
            return Some(answer_error("Usage: rm [-r] <path>"));
        }
        assert(argv.deep_view()[at as int] == argv[at as int]@);
        let path = resolve_in_dir(cwd, argv[at].as_str());
        Some(WindowsPlan::Fs(FsRequest::Remove { path }))
    } else if str_eq(program, "mv") {
        if argv.len() < 3 {
            Some(answer_error("Usage: mv <from> <to>"))
        } else {
            assert(argv.deep_view()[1] == argv[1]@);
            assert(argv.deep_view()[2] == argv[2]@);
            let from = resolve_in_dir(cwd, argv[1].as_str());
            let to = resolve_in_dir(cwd, argv[2].as_str());
            Some(WindowsPlan::Fs(FsRequest::Rename { from, to }))
        }
    } else if str_eq(program, "cat") || str_eq(program, "type") {
        if argv.len() < 2 {
            Some(answer_error("Usage: cat <file>"))
        } else {
            assert(argv.deep_view()[1] == argv[1]@);
            Some(
                WindowsPlan::Fs(FsRequest::ReadFile { path: resolve_in_dir(cwd, argv[1].as_str()) }),
            )
        }
    } else if str_eq(program, "grep") {
        if argv.len() < 3 {
            Some(answer_error("Usage: grep <pattern> <file>"))
        } else {
            assert(argv.deep_view()[1] == argv[1]@);
            assert(argv.deep_view()[2] == argv[2]@);
            let pattern = argv[1].clone();
            let path = resolve_in_dir(cwd, argv[2].as_str());
            Some(WindowsPlan::Fs(FsRequest::Grep { pattern, path }))
        }
    } else {
        None
    }
}

/// Plans the commands that Windows answers in-process or by running a
/// program: `echo`, `whoami`, `vim`, `ip`, `ipconfig`, `curl` and `wget`.
/// Any other program gives `None`.
pub fn handle_windows_process_command(cwd: &str, program: &str, argv: &[String]) -> (plan: Option<
    WindowsPlan,
>)
    ensures
        match plan {
            Some(p) => windows_process_plan(cwd@, program@, argv.deep_view()) == Some(p@),
            None => windows_process_plan(cwd@, program@, argv.deep_view()) is None,
        },
{
    if str_eq(program, "echo") {
        let text = if argv.len() > 0 {
            assert(argv.deep_view().skip(1) =~= rest_of(argv.deep_view()));
            join_from(argv, 1, " ")
        } else {
            assert(argv.deep_view().skip(0) =~= rest_of(argv.deep_view()));
            join_from(argv, 0, " ")
        };
        let mut lines: Vec<TerminalLine> = Vec::new();
        lines.push(TerminalLine::new(text, LineType::Output));
        assert(lines.deep_view() =~= seq![(text@, LineType::Output)]);
        Some(WindowsPlan::Answer(lines))
    } else if str_eq(program, "whoami") {
        Some(WindowsPlan::WhoAmI)
    } else if str_eq(program, "vim") {
        Some(answer_error("vim is not supported in this UI (interactive TTY required)."))
    } else if str_eq(program, "ip") {
        Some(
            WindowsPlan::Spawn(
                ExecutionRequest {
                    program: "ipconfig".to_owned(),
                    args: tail_of(argv),
                    working_dir: cwd.to_owned(),
                },
            ),
        )
    } else if str_eq(program, "ipconfig") || str_eq(program, "curl") || str_eq(program, "wget") {
        Some(
            WindowsPlan::Spawn(
                ExecutionRequest {
                    program: program.to_owned(),
                    args: tail_of(argv),
                    working_dir: cwd.to_owned(),
                },
            ),
        )
    } else {
        None
    }
}

/// Plans an allowed command on Windows. A program that neither the
/// filesystem commands nor the process commands know is refused with one
/// error line.
pub fn execute_windows_command(cwd: &str, program: &str, argv: &[String]) -> (plan: WindowsPlan)
    ensures
        plan@ == windows_plan(cwd@, program@, argv.deep_view()),
{
    if let Some(plan) = handle_windows_fs_command(cwd, program, argv) {
        return plan;
    }
    if let Some(plan) = handle_windows_process_command(cwd, program, argv) {
        return plan;
    }
    let text = followed_by("Unhandled command: ", program);
    let mut lines: Vec<TerminalLine> = Vec::new();
    lines.push(TerminalLine::new(text, LineType::Error));
    assert(lines.deep_view() =~= seq![(text@, LineType::Error)]);
    WindowsPlan::Answer(lines)
}

/// Plans an allowed command on `platform`: on Unix the program itself, with
/// the arguments after the command name, to be streamed; on Windows the
/// Windows plan.
pub fn plan_external(platform: Platform, cwd: &str, program: &str, argv: &[String]) -> (plan:
    ExternalPlan)
    ensures
        plan@ == external_plan(platform, cwd@, program@, argv.deep_view()),
{
    match execution_strategy(platform) {
        ExecutionStrategy::Streaming => ExternalPlan::Stream(
            ExecutionRequest {
                program: program.to_owned(),
                args: tail_of(argv),
                working_dir: cwd.to_owned(),
            },
        ),
        ExecutionStrategy::Blocking => ExternalPlan::Windows(
            execute_windows_command(cwd, program, argv),
        ),
    }
}

} // verus!
