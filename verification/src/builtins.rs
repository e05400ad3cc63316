//! The commands that the shell answers itself, without starting a program.

use vstd::prelude::*;
use crate::allowlist::FsMode;
use crate::allowlist::Platform;
use crate::allowlist::ShellConfig;
use crate::state::lines_of_kind;
use crate::state::LineType;
use crate::state::TerminalLine;

verus! {

/// The names of the built-in commands.
pub open spec fn builtin_names() -> Seq<Seq<char>> {
    seq!["help"@, "clear"@, "cls"@, "cd"@, "pwd"@, "exit"@]
}

/// The names of the built-in commands.
pub fn builtin_commands() -> (names: Vec<&'static str>)
    ensures
        names.deep_view() == builtin_names(),
{
    let mut names: Vec<&'static str> = Vec::new();
    names.push("help");
    names.push("clear");
    names.push("cls");
    names.push("cd");
    names.push("pwd");
    names.push("exit");
    assert(names.deep_view() =~= builtin_names());
    names
}

/// The line of the help text that lists the permitted external commands.
pub open spec fn allowed_summary(config: ShellConfig) -> Seq<char> {
    match (config.platform, config.fs_mode) {
        (Platform::Windows, FsMode::Safe) =>
            "Allowed system commands (safe mode): ls, dir, echo, vim, whoami, cat/type, grep, curl, wget, ipconfig (ip)."@,
        (Platform::Windows, FsMode::Standard) =>
            "Allowed system commands: ls, dir, echo, vim, whoami, cat/type, grep, curl, wget, ipconfig (ip)."@,
        (Platform::Windows, FsMode::UnsafeFs) =>
            "Allowed system commands: ls, dir, echo, vim, mkdir, rm/del, mv, whoami, cat/type, grep, curl, wget, ipconfig (ip)."@,
        (Platform::Unix, FsMode::Safe) =>
            "Allowed system commands (safe mode): ls, dir, echo, vim, whoami, cat, grep, curl, wget, ifconfig, ip."@,
        (Platform::Unix, FsMode::Standard) =>
            "Allowed system commands: ls, dir, echo, vim, whoami, cat, grep, curl, wget, ifconfig, ip."@,
        (Platform::Unix, FsMode::UnsafeFs) =>
            "Allowed system commands: ls, dir, echo, vim, mkdir, rm/del, mv, whoami, cat, grep, curl, wget, ifconfig, ip."@,
    }
}

/// The help text, line by line.
pub open spec fn help_text(config: ShellConfig) -> Seq<Seq<char>> {
    seq![
        "⚡ Blaze Terminal — Commands:"@,
        ""@,
        "  help            Show this help message"@,
        "  clear / cls     Clear terminal output"@,
        "  cd <dir>        Change directory"@,
        "  pwd             Print working directory"@,
        "  exit            Exit the terminal"@,
        ""@,
        allowed_summary(config),
    ]
}

/// The line that lists the permitted external commands.
fn allowed_summary_line(config: ShellConfig) -> (text: &'static str)
    ensures
        text@ == allowed_summary(config),
{
    match (config.platform, config.fs_mode) {
        (Platform::Windows, FsMode::Safe) =>
            "Allowed system commands (safe mode): ls, dir, echo, vim, whoami, cat/type, grep, curl, wget, ipconfig (ip).",
        (Platform::Windows, FsMode::Standard) =>
            "Allowed system commands: ls, dir, echo, vim, whoami, cat/type, grep, curl, wget, ipconfig (ip).",
        (Platform::Windows, FsMode::UnsafeFs) =>
            "Allowed system commands: ls, dir, echo, vim, mkdir, rm/del, mv, whoami, cat/type, grep, curl, wget, ipconfig (ip).",
        (Platform::Unix, FsMode::Safe) =>
            "Allowed system commands (safe mode): ls, dir, echo, vim, whoami, cat, grep, curl, wget, ifconfig, ip.",
        (Platform::Unix, FsMode::Standard) =>
            "Allowed system commands: ls, dir, echo, vim, whoami, cat, grep, curl, wget, ifconfig, ip.",
        (Platform::Unix, FsMode::UnsafeFs) =>
            "Allowed system commands: ls, dir, echo, vim, mkdir, rm/del, mv, whoami, cat, grep, curl, wget, ifconfig, ip.",
    }
}

/// The answer to `help`: the built-in commands and the external commands that
/// `config` permits, as system lines.
pub fn help_lines(config: ShellConfig) -> (lines: Vec<TerminalLine>)
    ensures
        lines.deep_view() == lines_of_kind(help_text(config), LineType::System),
{
    let mut lines: Vec<TerminalLine> = Vec::new();
    lines.push(TerminalLine::of("⚡ Blaze Terminal — Commands:", LineType::System));
    lines.push(TerminalLine::of("", LineType::System));
    lines.push(TerminalLine::of("  help            Show this help message", LineType::System));
    lines.push(TerminalLine::of("  clear / cls     Clear terminal output", LineType::System));
    lines.push(TerminalLine::of("  cd <dir>        Change directory", LineType::System));
    lines.push(TerminalLine::of("  pwd             Print working directory", LineType::System));
    lines.push(TerminalLine::of("  exit            Exit the terminal", LineType::System));
    lines.push(TerminalLine::of("", LineType::System));
    lines.push(TerminalLine::of(allowed_summary_line(config), LineType::System));
    assert(lines.deep_view() =~= lines_of_kind(help_text(config), LineType::System));
    lines
}

} // verus!
