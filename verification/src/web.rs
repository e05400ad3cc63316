//! The simulated shell of the web demo.
//!
//! The demo runs nothing. Every command is answered from a fixed script, so
//! that the terminal can be tried where no program may be started.

use vstd::prelude::*;
use crate::buffer::capped;
use crate::buffer::LineBuffer;
use crate::state::lines_of_kind;
use crate::state::single_line;
use crate::state::static_lines;
use crate::state::LineType;
use crate::state::TerminalLine;
use crate::text::chars_of;
use crate::text::followed_by;
use crate::text::lowercase_of;
use crate::text::split_whitespace;
use crate::text::str_eq;
use crate::text::string_of;
use crate::text::to_lowercase;
use crate::text::words_of;

verus! {

/// The help text of the demo.
pub open spec fn demo_help() -> Seq<Seq<char>> {
    seq![
        "⚡ Blaze Terminal — Demo Commands:"@,
        ""@,
        "  help          Show this message"@,
        "  clear / cls   Clear the screen"@,
        "  dir / ls      List files and folders"@,
        "  echo <text>   Print text to the terminal"@,
        "  curl <url>    Fetch a URL (simulated)"@,
        "  wget <url>    Fetch a URL (simulated)"@,
        "  whoami        Show current user"@,
        "  date          Show the date"@,
        "  ipconfig      Show network configuration (Windows-style)"@,
        "  ifconfig      Show network configuration (Unix-style)"@,
        "  ip            Show network configuration (simulated)"@,
        "  ping <host>   Test network connectivity"@,
        "  mkdir <dir>   Create a directory"@,
        "  rm / del <p>  Delete a file or directory"@,
        "  mv <a> <b>    Move or rename"@,
        "  pwd           Print working directory"@,
        "  cat / type <file>  Print a file"@,
        "  grep <pat> <file>  Find text in a file"@,
    ]
}

/// The directory listing of the demo.
pub open spec fn demo_listing() -> Seq<Seq<char>> {
    seq![
        " Directory of C:\\Users\\You"@,
        ""@,
        " 02/07/2026  10:00 AM    <DIR>          Documents"@,
        " 02/07/2026  10:00 AM    <DIR>          Projects"@,
        " 02/07/2026  10:00 AM    <DIR>          Downloads"@,
        " 01/15/2026  03:45 PM           2,048   notes.txt"@,
        "               1 File(s)         2,048 bytes"@,
    ]
}

/// The network configuration of the demo, in the style of Windows.
pub open spec fn demo_ipconfig() -> Seq<Seq<char>> {
    seq![
        "Windows IP Configuration"@,
        ""@,
        "Ethernet adapter Ethernet:"@,
        "   IPv4 Address. . . . . : 192.168.1.100"@,
        "   Subnet Mask . . . . . : 255.255.255.0"@,
        "   Default Gateway . . . : 192.168.1.1"@,
    ]
}

/// The network configuration of the demo, in the style of Unix.
pub open spec fn demo_ifconfig() -> Seq<Seq<char>> {
    seq![
        "eth0: flags=4163<UP,BROADCAST,RUNNING,MULTICAST>  mtu 1500"@,
        "        inet 192.168.1.100  netmask 255.255.255.0  broadcast 192.168.1.255"@,
        "        inet6 fe80::1  prefixlen 64  scopeid 0x20<link>"@,
        "        ether aa:bb:cc:dd:ee:ff  txqueuelen 1000  (Ethernet)"@,
    ]
}

/// The answer of the demo to `ping`.
pub open spec fn demo_ping() -> Seq<Seq<char>> {
    seq![
        "Pinging host with 32 bytes of data:"@,
        "Reply from 93.184.216.34: bytes=32 time=12ms TTL=56"@,
        "Reply from 93.184.216.34: bytes=32 time=11ms TTL=56"@,
        "Reply from 93.184.216.34: bytes=32 time=13ms TTL=56"@,
    ]
}

/// The answer of the demo to a fetch of `url`.
pub open spec fn demo_fetch(url: Seq<char>) -> Seq<Seq<char>> {
    seq![
        "(simulated) fetching "@ + url + "..."@,
        "HTTP/1.1 200 OK"@,
        "content-type: text/html; charset=utf-8"@,
        ""@,
        "<html>... (body truncated) ...</html>"@,
    ]
}

/// One line of output.
pub open spec fn output(text: Seq<char>) -> Seq<(Seq<char>, LineType)> {
    seq![(text, LineType::Output)]
}

/// One error line.
pub open spec fn error(text: Seq<char>) -> Seq<(Seq<char>, LineType)> {
    seq![(text, LineType::Error)]
}

/// One system line.
pub open spec fn system(text: Seq<char>) -> Seq<(Seq<char>, LineType)> {
    seq![(text, LineType::System)]
}

/// What `echo` shows: the command behind its first five characters.
pub open spec fn echoed_text(cmd: Seq<char>) -> Seq<char> {
    if cmd.len() > 5 {
        cmd.skip(5)
    } else {
        Seq::empty()
    }
}

/// The usage line if the command has fewer than `needed` words, else the
/// simulated answer.
pub open spec fn usage_or(words: int, needed: int, usage: Seq<char>, answer: Seq<
    (Seq<char>, LineType),
>) -> Seq<(Seq<char>, LineType)> {
    if words < needed {
        error(usage)
    } else {
        answer
    }
}

/// The lines that the demo answers the command `cmd` with, or `None` if the
/// command clears the screen. The command is selected by the first word,
/// whatever its case.
pub open spec fn web_reply(cmd: Seq<char>, demo_dir: Seq<char>) -> Option<Seq<(Seq<char>, LineType)>> {
    let lowered = words_of(lowercase_of(cmd));
    let count = lowered.len() as int;
    let first = if count > 0 {
        lowered[0]
    } else {
        Seq::empty()
    };
    if first == "clear"@ || first == "cls"@ {
        None
    } else if first == "help"@ {
        Some(lines_of_kind(demo_help(), LineType::System))
    } else if first == "dir"@ || first == "ls"@ {
        Some(lines_of_kind(demo_listing(), LineType::Output))
    } else if first == "echo"@ {
        Some(output(echoed_text(cmd)))
    } else if first == "whoami"@ {
        Some(output("You"@))
    } else if first == "curl"@ || first == "wget"@ {
        if words_of(cmd).len() > 1 {
            Some(lines_of_kind(demo_fetch(words_of(cmd)[1]), LineType::Output))
        } else {
            Some(error("Usage: curl <url>"@))
        }
    } else if first == "pwd"@ {
        Some(output(demo_dir))
    } else if first == "cat"@ || first == "type"@ {
        Some(usage_or(count, 2, "Usage: cat <file>"@, output("(simulated) file contents..."@)))
    } else if first == "grep"@ {
        Some(
            usage_or(
                count,
                3,
                "Usage: grep <pattern> <file>"@,
                output("(simulated) matching lines..."@),
            ),
        )
    } else if first == "date"@ {
        Some(output("Fri 02/07/2026"@))
    } else if first == "ip"@ || first == "ipconfig"@ {
        Some(lines_of_kind(demo_ipconfig(), LineType::Output))
    } else if first == "ifconfig"@ {
        Some(lines_of_kind(demo_ifconfig(), LineType::Output))
    } else if first == "ping"@ {
        Some(
            usage_or(count, 2, "Usage: ping <host>"@, lines_of_kind(demo_ping(), LineType::Output)),
        )
    } else if first == "mkdir"@ {
        Some(usage_or(count, 2, "Usage: mkdir <dir>"@, output("Directory created (simulated)"@)))
    } else if first == "rm"@ || first == "del"@ {
        Some(usage_or(count, 2, "Usage: rm <path>"@, output("Deleted (simulated)"@)))
    } else if first == "mv"@ {
        Some(usage_or(count, 3, "Usage: mv <source> <dest>"@, output("Moved (simulated)"@)))
    } else if first == "cd"@ {
        Some(system("Directory changed (simulated)"@))
    } else if first == "exit"@ {
        Some(system("Can't exit the web demo! Download the real thing."@))
    } else {
        Some(error("'"@ + cmd + "': command not recognized. Type 'help' for commands."@))
    }
}

/// The usage line if the command has fewer than `needed` words, else the
/// simulated answer.
fn usage_or_lines(words: usize, needed: usize, usage: &'static str, answer: Vec<TerminalLine>) -> (lines:
    Vec<TerminalLine>)
    ensures
        lines.deep_view() == usage_or(words as int, needed as int, usage@, answer.deep_view()),
{
    if words < needed {
        single_line(usage.to_owned(), LineType::Error)
    } else {
        answer
    }
}

/// One line of fixed text.
fn fixed_line(text: &'static str, line_type: LineType) -> (lines: Vec<TerminalLine>)
    ensures
        lines.deep_view() == seq![(text@, line_type)],
{
    single_line(text.to_owned(), line_type)
}

/// Answers the command `cmd` from the script of the demo; `None` stands for
/// a command that clears the screen.
pub fn web_reply_lines(cmd: &str, demo_dir: &str) -> (reply: Option<Vec<TerminalLine>>)
    ensures
        match reply {
            Some(lines) => web_reply(cmd@, demo_dir@) == Some(lines.deep_view()),
            None => web_reply(cmd@, demo_dir@) is None,
        },
{
    let lowered = split_whitespace(to_lowercase(cmd).as_str());
    let count = lowered.len();
    let first: &str = if count > 0 {
        assert(lowered.deep_view()[0] == lowered[0]@);
        lowered[0].as_str()
    } else {
        ""
    };
    proof {
        reveal_strlit("");
    }
    assert(first@ =~= if count > 0 {
        words_of(lowercase_of(cmd@))[0]
    } else {
        Seq::empty()
    });
    if str_eq(first, "clear") || str_eq(first, "cls") {
        None
    } else if str_eq(first, "help") {
        let texts = [
            "⚡ Blaze Terminal — Demo Commands:",
            "",
            "  help          Show this message",
            "  clear / cls   Clear the screen",
            "  dir / ls      List files and folders",
            "  echo <text>   Print text to the terminal",
            "  curl <url>    Fetch a URL (simulated)",
            "  wget <url>    Fetch a URL (simulated)",
            "  whoami        Show current user",
            "  date          Show the date",
            "  ipconfig      Show network configuration (Windows-style)",
            "  ifconfig      Show network configuration (Unix-style)",
            "  ip            Show network configuration (simulated)",
            "  ping <host>   Test network connectivity",
            "  mkdir <dir>   Create a directory",
            "  rm / del <p>  Delete a file or directory",
            "  mv <a> <b>    Move or rename",
            "  pwd           Print working directory",
            "  cat / type <file>  Print a file",
            "  grep <pat> <file>  Find text in a file",
        ];
        assert(texts.deep_view() =~= demo_help());
        Some(static_lines(&texts, LineType::System))
    } else if str_eq(first, "dir") || str_eq(first, "ls") {
        let texts = [
            " Directory of C:\\Users\\You",
            "",
            " 02/07/2026  10:00 AM    <DIR>          Documents",
            " 02/07/2026  10:00 AM    <DIR>          Projects",
            " 02/07/2026  10:00 AM    <DIR>          Downloads",
            " 01/15/2026  03:45 PM           2,048   notes.txt",
            "               1 File(s)         2,048 bytes",
        ];
        assert(texts.deep_view() =~= demo_listing());
        Some(static_lines(&texts, LineType::Output))
    } else if str_eq(first, "echo") {
        let chars = chars_of(cmd);
        let text = if chars.len() > 5 {
            assert(cmd@.skip(5) =~= cmd@.subrange(5, cmd@.len() as int));
            string_of(&chars, 5, chars.len())
        } else {
            String::new()
        };
        Some(single_line(text, LineType::Output))
    } else if str_eq(first, "whoami") {
        Some(fixed_line("You", LineType::Output))
    } else if str_eq(first, "curl") || str_eq(first, "wget") {
        let words = split_whitespace(cmd);
        if words.len() > 1 {
            assert(words.deep_view()[1] == words[1]@);
            let mut fetching = followed_by("(simulated) fetching ", words[1].as_str());
            fetching.append("...");
            let mut lines = single_line(fetching, LineType::Output);
            let rest = [
                "HTTP/1.1 200 OK",
                "content-type: text/html; charset=utf-8",
                "",
                "<html>... (body truncated) ...</html>",
            ];
            let mut tail = static_lines(&rest, LineType::Output);
            let ghost head = lines.deep_view();
            let ghost body = tail.deep_view();
            lines.append(&mut tail);
            assert(lines.deep_view() =~= head + body);
            assert(lines.deep_view() =~= lines_of_kind(demo_fetch(words[1]@), LineType::Output));
            Some(lines)
        } else {
            Some(fixed_line("Usage: curl <url>", LineType::Error))
        }
    } else if str_eq(first, "pwd") {
        Some(single_line(demo_dir.to_owned(), LineType::Output))
    } else if str_eq(first, "cat") || str_eq(first, "type") {
        Some(
            usage_or_lines(
                count,
                2,
                "Usage: cat <file>",
                fixed_line("(simulated) file contents...", LineType::Output),
            ),
        )
    } else if str_eq(first, "grep") {
        Some(
            usage_or_lines(
                count,
                3,
                "Usage: grep <pattern> <file>",
                fixed_line("(simulated) matching lines...", LineType::Output),
            ),
        )
    } else if str_eq(first, "date") {
        Some(fixed_line("Fri 02/07/2026", LineType::Output))
    } else if str_eq(first, "ip") || str_eq(first, "ipconfig") {
        let texts = [
            "Windows IP Configuration",
            "",
            "Ethernet adapter Ethernet:",
            "   IPv4 Address. . . . . : 192.168.1.100",
            "   Subnet Mask . . . . . : 255.255.255.0",
            "   Default Gateway . . . : 192.168.1.1",
        ];
        assert(texts.deep_view() =~= demo_ipconfig());
        Some(static_lines(&texts, LineType::Output))
    } else if str_eq(first, "ifconfig") {
        let texts = [
            "eth0: flags=4163<UP,BROADCAST,RUNNING,MULTICAST>  mtu 1500",
            "        inet 192.168.1.100  netmask 255.255.255.0  broadcast 192.168.1.255",
            "        inet6 fe80::1  prefixlen 64  scopeid 0x20<link>",
            "        ether aa:bb:cc:dd:ee:ff  txqueuelen 1000  (Ethernet)",
        ];
        assert(texts.deep_view() =~= demo_ifconfig());
        Some(static_lines(&texts, LineType::Output))
    } else if str_eq(first, "ping") {
        let texts = [
            "Pinging host with 32 bytes of data:",
            "Reply from 93.184.216.34: bytes=32 time=12ms TTL=56",
            "Reply from 93.184.216.34: bytes=32 time=11ms TTL=56",
            "Reply from 93.184.216.34: bytes=32 time=13ms TTL=56",
        ];
        assert(texts.deep_view() =~= demo_ping());
        Some(
            usage_or_lines(count, 2, "Usage: ping <host>", static_lines(&texts, LineType::Output)),
        )
    } else if str_eq(first, "mkdir") {
        Some(
            usage_or_lines(
                count,
                2,
                "Usage: mkdir <dir>",
                fixed_line("Directory created (simulated)", LineType::Output),
            ),
        )
    } else if str_eq(first, "rm") || str_eq(first, "del") {
        Some(
            usage_or_lines(
                count,
                2,
                "Usage: rm <path>",
                fixed_line("Deleted (simulated)", LineType::Output),
            ),
        )
    } else if str_eq(first, "mv") {
        Some(
            usage_or_lines(
                count,
                3,
                "Usage: mv <source> <dest>",
                fixed_line("Moved (simulated)", LineType::Output),
            ),
        )
    } else if str_eq(first, "cd") {
        Some(fixed_line("Directory changed (simulated)", LineType::System))
    } else if str_eq(first, "exit") {
        Some(fixed_line("Can't exit the web demo! Download the real thing.", LineType::System))
    } else {
        let mut text = followed_by("'", cmd);
        text.append("': command not recognized. Type 'help' for commands.");
        Some(single_line(text, LineType::Error))
    }
}

/// The transcript of the demo after the command `cmd` was run in
/// `demo_dir`: the command is echoed behind the prompt, then the screen is
/// cleared or the answer appended.
pub open spec fn web_transcript(
    lines: Seq<(Seq<char>, LineType)>,
    cmd: Seq<char>,
    demo_dir: Seq<char>,
) -> Seq<(Seq<char>, LineType)> {
    let echoed = capped(lines.push((demo_dir + " > "@ + cmd, LineType::Command)));
    match web_reply(cmd, demo_dir) {
        None => Seq::empty(),
        Some(reply) => capped(echoed + reply),
    }
}

/// Runs the command `cmd` in the demo: echoes it and appends the scripted
/// answer, within the cap of the transcript.
pub fn run_web_command(cmd: &str, demo_dir: &str, lines: &mut LineBuffer)
    requires
        old(lines).wf(),
    ensures
        final(lines).wf(),
        final(lines)@ == web_transcript(old(lines)@, cmd@, demo_dir@),
{
    let mut echo = followed_by(demo_dir, " > ");
    echo.append(cmd);
    lines.append(TerminalLine::new(echo, LineType::Command));
    match web_reply_lines(cmd, demo_dir) {
        None => lines.clear(),
        Some(reply) => lines.append_many(reply),
    }
}

} // verus!
