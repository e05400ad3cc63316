//! Which external programs may run.
//!
//! One table, selected by platform and filesystem mode, lists the permitted
//! program names. A name that is not in the table is denied, which is an
//! ordinary outcome and no error.

use vstd::prelude::*;
use crate::text::str_eq;

verus! {

/// The operating system family the shell runs on.
#[derive(Clone, Copy, Debug, PartialEq, Eq, Structural)]
pub enum Platform {
    Windows,
    Unix,
}

/// How far external commands may change the filesystem.
#[derive(Clone, Copy, Debug, PartialEq, Eq, Structural)]
pub enum FsMode {
    /// Read-only and network commands only.
    Safe,
    /// The default: the same commands as `Safe`.
    Standard,
    /// Also the commands that create, delete and move files.
    UnsafeFs,
}

/// The fixed configuration of a shell session.
#[derive(Clone, Copy, Debug, PartialEq, Eq, Structural)]
pub struct ShellConfig {
    pub platform: Platform,
    pub fs_mode: FsMode,
}

/// The commands permitted on every platform and in every mode.
pub open spec fn core_names() -> Seq<Seq<char>> {
    seq![
        "ls"@,
        "dir"@,
        "echo"@,
        "vim"@,
        "whoami"@,
        "cat"@,
        "grep"@,
        "curl"@,
        "wget"@,
        "ip"@,
    ]
}

/// The commands permitted on one platform only.
pub open spec fn platform_names(platform: Platform) -> Seq<Seq<char>> {
    match platform {
        Platform::Windows => seq!["type"@, "ipconfig"@],
        Platform::Unix => seq!["ifconfig"@],
    }
}

/// The commands that change the filesystem.
pub open spec fn mutating_names() -> Seq<Seq<char>> {
    seq!["mkdir"@, "rm"@, "del"@, "mv"@]
}

/// The allowlist table of a configuration.
pub open spec fn allowed_names(config: ShellConfig) -> Seq<Seq<char>> {
    core_names() + platform_names(config.platform) + if config.fs_mode == FsMode::UnsafeFs {
        mutating_names()
    } else {
        Seq::empty()
    }
}

/// Whether `name` may run as an external program under `config`. The
/// comparison is exact: callers lowercase the name first.
pub open spec fn is_allowed(config: ShellConfig, name: Seq<char>) -> bool {
    allowed_names(config).contains(name)
}

/// The names of the external programs that `config` permits.
pub fn external_commands(config: ShellConfig) -> (names: Vec<&'static str>)
    ensures
        names.deep_view() == allowed_names(config),
{
    let mut names: Vec<&'static str> = Vec::new();
    names.push("ls");
    names.push("dir");
    names.push("echo");
    names.push("vim");
    names.push("whoami");
    names.push("cat");
    names.push("grep");
    names.push("curl");
    names.push("wget");
    names.push("ip");
    assert(names.deep_view() =~= core_names());
    match config.platform {
        Platform::Windows => {
            names.push("type");
            names.push("ipconfig");
        },
        Platform::Unix => {
            names.push("ifconfig");
        },
    }
    assert(names.deep_view() =~= core_names() + platform_names(config.platform));
    if config.fs_mode == FsMode::UnsafeFs {
        names.push("mkdir");
        names.push("rm");
        names.push("del");
        names.push("mv");
    }
    assert(names.deep_view() =~= allowed_names(config));
    names
}

/// Whether `command` may run as an external program under `config`.
pub fn is_allowed_external(config: ShellConfig, command: &str) -> (allowed: bool)
    ensures
        allowed == is_allowed(config, command@),
{
    let names = external_commands(config);
    let mut i: usize = 0;
    while i < names.len()
        invariant
            i <= names.len(),
            names.deep_view() == allowed_names(config),
            forall|j: int| 0 <= j < i ==> allowed_names(config)[j] != command@,
        decreases names.len() - i,
    {
        assert(names.deep_view()[i as int] == names[i as int]@);
        if str_eq(command, names[i]) {
            return true;
        }
        i += 1;
    }
    false
}

/// Under every configuration, a command that changes the filesystem
/// (`mkdir`, `rm`, `del`, `mv`) is permitted if and only if the mode is
/// `UnsafeFs`, and the read-only and network commands are always permitted.
pub proof fn lemma_mutating_iff_unsafe_fs(config: ShellConfig)
    ensures
        forall|name: Seq<char>| #[trigger]
            mutating_names().contains(name) ==> (is_allowed(config, name) <==> config.fs_mode
                == FsMode::UnsafeFs),
        is_allowed(config, "mkdir"@) <==> config.fs_mode == FsMode::UnsafeFs,
        is_allowed(config, "rm"@) <==> config.fs_mode == FsMode::UnsafeFs,
        is_allowed(config, "del"@) <==> config.fs_mode == FsMode::UnsafeFs,
        is_allowed(config, "mv"@) <==> config.fs_mode == FsMode::UnsafeFs,
        is_allowed(config, "ls"@),
        is_allowed(config, "echo"@),
        is_allowed(config, "whoami"@),
        is_allowed(config, "cat"@),
        is_allowed(config, "grep"@),
        is_allowed(config, "curl"@),
        is_allowed(config, "wget"@),
        is_allowed(config, "ip"@),
{
    reveal_strlit("ls");
    reveal_strlit("dir");
    reveal_strlit("echo");
    reveal_strlit("vim");
    reveal_strlit("whoami");
    reveal_strlit("cat");
    reveal_strlit("grep");
    reveal_strlit("curl");
    reveal_strlit("wget");
    reveal_strlit("ip");
    reveal_strlit("type");
    reveal_strlit("ipconfig");
    reveal_strlit("ifconfig");
    reveal_strlit("mkdir");
    reveal_strlit("rm");
    reveal_strlit("del");
    reveal_strlit("mv");
    let fixed = core_names() + platform_names(config.platform);
    assert forall|name: Seq<char>| #[trigger] mutating_names().contains(name) implies !fixed.contains(
        name,
    ) by {
        if fixed.contains(name) {
            let i = choose|i: int| 0 <= i < fixed.len() && fixed[i] == name;
            let j = choose|j: int| 0 <= j < mutating_names().len() && mutating_names()[j] == name;
            assert(fixed[i].len() == mutating_names()[j].len());
            assert(fixed[i][0] == mutating_names()[j][0]);
            assert(fixed[i][1] == mutating_names()[j][1]);
        }
    }
    assert forall|name: Seq<char>| #[trigger] mutating_names().contains(name) implies (is_allowed(
        config,
        name,
    ) <==> config.fs_mode == FsMode::UnsafeFs) by {
        if config.fs_mode == FsMode::UnsafeFs {
            let j = choose|j: int| 0 <= j < mutating_names().len() && mutating_names()[j] == name;
            assert(allowed_names(config)[fixed.len() + j] == name);
        } else {
            assert(allowed_names(config) =~= fixed);
        }
    }
    assert(mutating_names()[0] == "mkdir"@ && mutating_names().contains("mkdir"@));
    assert(mutating_names()[1] == "rm"@ && mutating_names().contains("rm"@));
    assert(mutating_names()[2] == "del"@ && mutating_names().contains("del"@));
    assert(mutating_names()[3] == "mv"@ && mutating_names().contains("mv"@));
    assert(allowed_names(config)[0] == "ls"@);
    assert(allowed_names(config)[2] == "echo"@);
    assert(allowed_names(config)[4] == "whoami"@);
    assert(allowed_names(config)[5] == "cat"@);
    assert(allowed_names(config)[6] == "grep"@);
    assert(allowed_names(config)[7] == "curl"@);
    assert(allowed_names(config)[8] == "wget"@);
    assert(allowed_names(config)[9] == "ip"@);
}

} // verus!
