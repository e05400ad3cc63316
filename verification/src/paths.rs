//! Path arithmetic.
//!
//! Paths are plain strings here. Deciding whether a path is absolute and
//! joining two paths is left to `std::path`, which does both by the rules of
//! the platform the library is built for; touching the filesystem is left to
//! the caller.

use vstd::prelude::*;
use crate::text::chars_of;
use crate::text::string_of;

verus! {

/// Whether `path` is absolute, as `std::path::Path::is_absolute` decides it.
pub uninterp spec fn path_is_absolute(path: Seq<char>) -> bool;

/// `path` appended to `base`, as `std::path::Path::join` builds it.
pub uninterp spec fn path_joined(base: Seq<char>, path: Seq<char>) -> Seq<char>;

/// Calls `std::path::Path::is_absolute`. Trusted: the result is the standard
/// library's answer, which `path_is_absolute` names; it depends on the text of
/// the path alone.
#[verifier::external_body]
pub(crate) fn is_absolute(path: &str) -> (absolute: bool)
    ensures
        absolute == path_is_absolute(path@),
{
    std::path::Path::new(path).is_absolute()
}

/// Calls `std::path::Path::join`. Trusted: the result is the standard
/// library's joined path, which `path_joined` names; both operands are text,
/// so the joined path is text too.
#[verifier::external_body]
pub(crate) fn join_path(base: &str, path: &str) -> (whole: String)
    ensures
        whole@ == path_joined(base@, path@),
{
    std::path::Path::new(base).join(path).to_string_lossy().into_owned()
}

/// The path that `target` denotes when typed in the directory `cwd`.
pub open spec fn resolved_in(cwd: Seq<char>, target: Seq<char>) -> Seq<char> {
    if path_is_absolute(target) {
        target
    } else {
        path_joined(cwd, target)
    }
}

/// Resolves `target` against `cwd`: an absolute target stands for itself, a
/// relative one is taken below `cwd`.
pub fn resolve_in_dir(cwd: &str, target: &str) -> (path: String)
    ensures
        path@ == resolved_in(cwd@, target@),
{
    if is_absolute(target) {
        target.to_owned()
    } else {
        join_path(cwd, target)
    }
}

/// The marker that Windows puts in front of a canonical path: `\\?\`.
pub open spec fn verbatim_prefix() -> Seq<char> {
    seq!['\\', '\\', '?', '\\']
}

/// `path` without a leading verbatim marker.
pub open spec fn without_verbatim_prefix(path: Seq<char>) -> Seq<char> {
    if verbatim_prefix().is_prefix_of(path) {
        path.skip(4)
    } else {
        path
    }
}

/// Strips the verbatim marker from a canonical path, for display.
pub fn strip_verbatim_prefix(path: &str) -> (clean: String)
    ensures
        clean@ == without_verbatim_prefix(path@),
{
    let chars = chars_of(path);
    if chars.len() >= 4 && chars[0] == '\\' && chars[1] == '\\' && chars[2] == '?' && chars[3]
        == '\\' {
        assert(verbatim_prefix() =~= path@.subrange(0, 4));
        assert(path@.skip(4) =~= path@.subrange(4, path@.len() as int));
        string_of(&chars, 4, chars.len())
    } else {
        assert(!verbatim_prefix().is_prefix_of(path@)) by {
            if verbatim_prefix().is_prefix_of(path@) {
                assert(verbatim_prefix()[0] == path@[0]);
                assert(verbatim_prefix()[1] == path@[1]);
                assert(verbatim_prefix()[2] == path@[2]);
                assert(verbatim_prefix()[3] == path@[3]);
            }
        }
        path.to_owned()
    }
}

/// The name of the history file inside its directory.
pub open spec fn history_file_name() -> Seq<char> {
    ".blaze_history"@
}

/// The directory that holds the history file: the user's profile directory,
/// else the home directory, else the working directory.
pub open spec fn history_base(
    user_profile: Option<Seq<char>>,
    home: Option<Seq<char>>,
    current_dir: Seq<char>,
) -> Seq<char> {
    match user_profile {
        Some(dir) => dir,
        None => match home {
            Some(dir) => dir,
            None => current_dir,
        },
    }
}

/// The path of the history file, given the user's profile directory and home
/// directory where they are known, and the working directory.
pub fn history_file_path(user_profile: Option<&str>, home: Option<&str>, current_dir: &str) -> (path:
    String)
    ensures
        path@ == path_joined(
            history_base(
                match user_profile {
                    Some(dir) => Some(dir@),
                    None => None,
                },
                match home {
                    Some(dir) => Some(dir@),
                    None => None,
                },
                current_dir@,
            ),
            history_file_name(),
        ),
{
    let base = match user_profile {
        Some(dir) => dir,
        None => match home {
            Some(dir) => dir,
            None => current_dir,
        },
    };
    join_path(base, ".blaze_history")
}

} // verus!
