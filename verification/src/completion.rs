//! Tab completion.
//!
//! A line that holds one word and no trailing whitespace completes to a
//! command name. Any other line completes its last word to an entry of a directory;
//! which directory that is, is told by `completion_dir`, and the caller lists
//! it. Repeated presses walk through the candidates in ascending order.

use vstd::prelude::*;
use crate::allowlist::allowed_names;
use crate::allowlist::external_commands;
use crate::allowlist::Platform;
use crate::allowlist::ShellConfig;
use crate::builtins::builtin_commands;
use crate::builtins::builtin_names;
use crate::paths::resolve_in_dir;
use crate::paths::resolved_in;
use crate::sorting::sort_unique;
use crate::sorting::lemma_sorted_members;
use crate::sorting::sorted_members;
use crate::sorting::strictly_ascending;
use crate::text::char_is_whitespace;
use crate::text::chars_of;
use crate::text::has_prefix;
use crate::text::is_whitespace;
use crate::text::lowercase_of;
use crate::text::push_char;
use crate::text::split_whitespace;
use crate::text::string_of;
use crate::text::to_lowercase;
use crate::text::words_of;

verus! {

/// An entry of a directory: its name, and whether it is a directory itself.
#[derive(Clone, Debug, PartialEq)]
pub struct DirEntry {
    pub name: String,
    pub is_dir: bool,
}

impl DeepView for DirEntry {
    type V = (Seq<char>, bool);

    open spec fn deep_view(&self) -> (Seq<char>, bool) {
        (self.name@, self.is_dir)
    }
}

/// Whether the line ends with whitespace, which starts a new argument.
pub open spec fn ends_with_whitespace(input: Seq<char>) -> bool {
    input.len() > 0 && char_is_whitespace(input.last())
}

/// Whether the line is completed to a command name.
pub open spec fn completes_command(input: Seq<char>) -> bool {
    words_of(input).len() == 1 && !ends_with_whitespace(input)
}

/// The word that a path completion completes: the last word, or the empty
/// word after trailing whitespace.
pub open spec fn partial_of(input: Seq<char>) -> Seq<char> {
    if ends_with_whitespace(input) {
        Seq::empty()
    } else {
        words_of(input).last()
    }
}

/// Whether `c` separates the parts of a path.
pub open spec fn is_separator(c: char) -> bool {
    c == '/' || c == '\\'
}

/// The length of the directory portion of `partial`: all up to and including
/// its last separator.
pub open spec fn dir_len(partial: Seq<char>) -> int
    decreases partial.len(),
{
    if partial.len() == 0 {
        0
    } else if is_separator(partial.last()) {
        partial.len() as int
    } else {
        dir_len(partial.drop_last())
    }
}

/// The length of the part of `input` in front of its last word: all up to
/// and including its last whitespace character.
pub open spec fn kept_len(input: Seq<char>) -> int
    decreases input.len(),
{
    if input.len() == 0 {
        0
    } else if char_is_whitespace(input.last()) {
        input.len() as int
    } else {
        kept_len(input.drop_last())
    }
}

/// The part of the line that a path completion leaves as it is: all in
/// front of the last word, which is the whole line where it ends with
/// whitespace.
pub open spec fn kept_input(input: Seq<char>) -> Seq<char> {
    input.take(kept_len(input))
}

/// The character that marks a directory among the candidates.
pub open spec fn separator(platform: Platform) -> char {
    match platform {
        Platform::Windows => '\\',
        Platform::Unix => '/',
    }
}

/// An entry as the candidates show it: a directory with a trailing
/// separator.
pub open spec fn shown_name(platform: Platform, entry: (Seq<char>, bool)) -> Seq<char> {
    if entry.1 {
        entry.0.push(separator(platform))
    } else {
        entry.0
    }
}

/// The entries as the candidates show them.
pub open spec fn shown_names(platform: Platform, entries: Seq<(Seq<char>, bool)>) -> Seq<Seq<char>> {
    entries.map_values(|entry: (Seq<char>, bool)| shown_name(platform, entry))
}

/// `name`, in lowercase if case is not to matter.
pub open spec fn folded(name: Seq<char>, fold_case: bool) -> Seq<char> {
    if fold_case {
        lowercase_of(name)
    } else {
        name
    }
}

/// The names that start with `prefix`, in order.
pub open spec fn prefixed(names: Seq<Seq<char>>, prefix: Seq<char>, fold_case: bool) -> Seq<Seq<char>> {
    names.filter(|name: Seq<char>| prefix.is_prefix_of(folded(name, fold_case)))
}

/// The names of all commands: the built-ins and the permitted external
/// programs.
pub open spec fn command_names(config: ShellConfig) -> Seq<Seq<char>> {
    builtin_names() + allowed_names(config)
}

/// The command names that complete `word`, whatever its case: each once, in
/// ascending order.
pub open spec fn command_candidates(config: ShellConfig, word: Seq<char>) -> Seq<Seq<char>> {
    sorted_members(prefixed(command_names(config), lowercase_of(word), false))
}

/// The entries that complete `file_prefix`, whatever the case of either:
/// each once, in ascending order.
pub open spec fn path_candidates(
    platform: Platform,
    entries: Seq<(Seq<char>, bool)>,
    file_prefix: Seq<char>,
) -> Seq<Seq<char>> {
    sorted_members(prefixed(shown_names(platform, entries), lowercase_of(file_prefix), true))
}

/// The candidate that the `presses`-th press of the key selects: the
/// candidates are walked through in order, and after the last comes the
/// first again.
pub open spec fn pick(candidates: Seq<Seq<char>>, presses: int) -> Option<Seq<char>> {
    if candidates.len() == 0 {
        None
    } else {
        Some(candidates[presses % (candidates.len() as int)])
    }
}

/// The directory whose entries complete the line `input`, typed in `cwd`;
/// `None` if the line holds no word or is completed to a command name.
pub open spec fn completion_dir_of(input: Seq<char>, cwd: Seq<char>) -> Option<Seq<char>> {
    if words_of(input).len() == 0 || completes_command(input) {
        None
    } else {
        let partial = partial_of(input);
        let dir = partial.take(dir_len(partial));
        if dir.len() == 0 {
            Some(cwd)
        } else {
            Some(resolved_in(cwd, dir))
        }
    }
}

/// The line that `input` completes to. `listing` holds the entries of the
/// directory that `completion_dir_of` names, or `None` if it could not be
/// read.
pub open spec fn completion_of(
    config: ShellConfig,
    input: Seq<char>,
    listing: Option<Seq<(Seq<char>, bool)>>,
    presses: int,
) -> Option<Seq<char>> {
    if words_of(input).len() == 0 {
        None
    } else if completes_command(input) {
        pick(command_candidates(config, words_of(input)[0]), presses)
    } else {
        match listing {
            None => None,
            Some(entries) => {
                let partial = partial_of(input);
                let cut = dir_len(partial);
                match pick(path_candidates(config.platform, entries, partial.skip(cut)), presses) {
                    None => None,
                    Some(chosen) => Some(kept_input(input) + partial.take(cut) + chosen),
                }
            },
        }
    }
}

/// The length of the directory portion of `partial`.
fn dir_length(partial: &Vec<char>) -> (cut: usize)
    ensures
        cut == dir_len(partial@),
        cut <= partial.len(),
{
    let mut cut: usize = partial.len();
    assert(partial@.take(cut as int) =~= partial@);
    while cut > 0
        invariant
            cut <= partial.len(),
            dir_len(partial@) == dir_len(partial@.take(cut as int)),
        decreases cut,
    {
        let c = partial[cut - 1];
        assert(partial@.take(cut as int).last() == c);
        if c == '/' || c == '\\' {
            return cut;
        }
        assert(partial@.take(cut as int).drop_last() =~= partial@.take(cut as int - 1));
        cut -= 1;
    }
    cut
}

/// The length of the part of `input` in front of its last word.
fn kept_length(input: &Vec<char>) -> (cut: usize)
    ensures
        cut == kept_len(input@),
        cut <= input.len(),
{
    let mut cut: usize = input.len();
    assert(input@.take(cut as int) =~= input@);
    while cut > 0
        invariant
            cut <= input.len(),
            kept_len(input@) == kept_len(input@.take(cut as int)),
        decreases cut,
    {
        assert(input@.take(cut as int).last() == input@[cut as int - 1]);
        if is_whitespace(input[cut - 1]) {
            return cut;
        }
        assert(input@.take(cut as int).drop_last() =~= input@.take(cut as int - 1));
        cut -= 1;
    }
    cut
}

/// The names that start with `prefix`, in order.
fn select_prefixed(names: &Vec<String>, prefix: &str, fold_case: bool) -> (selected: Vec<String>)
    ensures
        selected.deep_view() == prefixed(names.deep_view(), prefix@, fold_case),
{
    let wanted = chars_of(prefix);
    let mut selected: Vec<String> = Vec::new();
    let mut i: usize = 0;
    proof {
        reveal(Seq::filter);
        assert(names.deep_view().take(0) =~= Seq::<Seq<char>>::empty());
        assert(selected.deep_view() =~= prefixed(names.deep_view().take(0), prefix@, fold_case));
    }
    while i < names.len()
        invariant
            i <= names.len(),
            wanted@ == prefix@,
            selected.deep_view() == prefixed(names.deep_view().take(i as int), prefix@, fold_case),
        decreases names.len() - i,
    {
        let ghost seen = names.deep_view().take(i as int);
        let ghost next = names.deep_view().take(i as int + 1);
        let ghost before = selected.deep_view();
        proof {
            reveal(Seq::filter);
            assert(next.drop_last() =~= seen);
            assert(next.last() == names[i as int]@);
        }
        let candidate = if fold_case {
            chars_of(to_lowercase(names[i].as_str()).as_str())
        } else {
            chars_of(names[i].as_str())
        };
        if has_prefix(&candidate, &wanted) {
            selected.push(names[i].clone());
            assert(selected.deep_view() =~= before.push(names[i as int]@));
        }
        i += 1;
    }
    assert(names.deep_view().take(i as int) =~= names.deep_view());
    selected
}

/// The candidate that the `presses`-th press selects.
fn choose_candidate(candidates: &Vec<String>, presses: usize) -> (chosen: Option<&String>)
    ensures
        match chosen {
            Some(name) => pick(candidates.deep_view(), presses as int) == Some(name@),
            None => pick(candidates.deep_view(), presses as int) is None,
        },
{
    if candidates.len() == 0 {
        None
    } else {
        let at = presses % candidates.len();
        assert(candidates.deep_view()[at as int] == candidates[at as int]@);
        Some(&candidates[at])
    }
}

/// The names of all commands under `config`.
fn all_command_names(config: ShellConfig) -> (names: Vec<String>)
    ensures
        names.deep_view() == command_names(config),
{
    let builtins = builtin_commands();
    let externals = external_commands(config);
    let mut names: Vec<String> = Vec::new();
    let mut i: usize = 0;
    assert(names.deep_view() =~= builtin_names().take(0));
    while i < builtins.len()
        invariant
            i <= builtins.len(),
            builtins.deep_view() == builtin_names(),
            names.deep_view() == builtin_names().take(i as int),
        decreases builtins.len() - i,
    {
        let ghost before = names.deep_view();
        assert(builtins.deep_view()[i as int] == builtins[i as int]@);
        names.push(builtins[i].to_owned());
        assert(names.deep_view() =~= before.push(builtins[i as int]@));
        assert(names.deep_view() =~= builtin_names().take(i as int + 1));
        i += 1;
    }
    assert(builtin_names().take(i as int) =~= builtin_names());
    let mut j: usize = 0;
    assert(names.deep_view() =~= builtin_names() + allowed_names(config).take(0));
    while j < externals.len()
        invariant
            j <= externals.len(),
            externals.deep_view() == allowed_names(config),
            names.deep_view() == builtin_names() + allowed_names(config).take(j as int),
        decreases externals.len() - j,
    {
        let ghost before = names.deep_view();
        assert(externals.deep_view()[j as int] == externals[j as int]@);
        names.push(externals[j].to_owned());
        assert(names.deep_view() =~= before.push(externals[j as int]@));
        assert(names.deep_view() =~= builtin_names() + allowed_names(config).take(j as int + 1));
        j += 1;
    }
    assert(allowed_names(config).take(j as int) =~= allowed_names(config));
    names
}

/// The entries as the candidates show them.
fn shown_entries(platform: Platform, entries: &Vec<DirEntry>) -> (names: Vec<String>)
    ensures
        names.deep_view() == shown_names(platform, entries.deep_view()),
{
    let mut names: Vec<String> = Vec::new();
    let mut i: usize = 0;
    assert(names.deep_view() =~= shown_names(platform, entries.deep_view().take(0)));
    while i < entries.len()
        invariant
            i <= entries.len(),
            names.deep_view() == shown_names(platform, entries.deep_view().take(i as int)),
        decreases entries.len() - i,
    {
        let ghost before = names.deep_view();
        assert(entries.deep_view()[i as int] == (entries[i as int].name@, entries[i as int].is_dir));
        let mut name = entries[i].name.clone();
        if entries[i].is_dir {
            match platform {
                Platform::Windows => push_char(&mut name, '\\'),
                Platform::Unix => push_char(&mut name, '/'),
            }
        }
        names.push(name);
        assert(names.deep_view() =~= before.push(
            shown_name(platform, entries.deep_view()[i as int]),
        ));
        assert(names.deep_view() =~= shown_names(platform, entries.deep_view().take(i as int + 1)));
        i += 1;
    }
    assert(entries.deep_view().take(i as int) =~= entries.deep_view());
    names
}

/// Tells which directory has to be listed to complete `input`, typed in
/// `cwd`: the directory portion of the last word, taken below `cwd` unless it
/// is absolute, or `cwd` if the last word has none. A line without words, or
/// one that is completed to a command name, needs no directory.
pub fn completion_dir(input: &str, cwd: &str) -> (dir: Option<String>)
    ensures
        match dir {
            Some(path) => completion_dir_of(input@, cwd@) == Some(path@),
            None => completion_dir_of(input@, cwd@) is None,
        },
{
    let words = split_whitespace(input);
    if words.len() == 0 {
        return None;
    }
    let chars = chars_of(input);
    let new_argument = chars.len() > 0 && is_whitespace(chars[chars.len() - 1]);
    if words.len() == 1 && !new_argument {
        return None;
    }
    let partial: Vec<char> = if new_argument {
        Vec::new()
    } else {
        assert(words.deep_view().last() == words[words.len() - 1]@);
        chars_of(words[words.len() - 1].as_str())
    };
    assert(partial@ =~= partial_of(input@));
    let cut = dir_length(&partial);
    if cut == 0 {
        assert(partial@.take(0).len() == 0);
        Some(cwd.to_owned())
    } else {
        let dir = string_of(&partial, 0, cut);
        assert(dir@ =~= partial@.take(cut as int));
        Some(resolve_in_dir(cwd, dir.as_str()))
    }
}

/// Completes the line `input`.
///
/// A single word without trailing whitespace is completed to the names of the
/// built-ins and of the external programs that `config` permits which start
/// with it, whatever its case. Any other line has its last word completed to
/// the entries in `listing` whose shown name starts with the part of the word
/// behind its last separator, whatever the case of either; directories are
/// shown with a trailing separator, and the completed line keeps what stood
/// in front of the last word and the word's directory portion. `listing` is
/// `None` where the directory could not be read, which completes nothing.
///
/// The candidates are each listed once, in ascending order, and `tab_state`
/// counts the presses of the key: press `n` selects candidate `n` modulo
/// their number. Without candidates the result is `None`.
pub fn tab_complete(
    config: ShellConfig,
    input: &str,
    listing: Option<&Vec<DirEntry>>,
    tab_state: usize,
) -> (completed: Option<String>)
    ensures
        match completed {
            Some(line) => completion_of(
                config,
                input@,
                match listing {
                    Some(entries) => Some(entries.deep_view()),
                    None => None,
                },
                tab_state as int,
            ) == Some(line@),
            None => completion_of(
                config,
                input@,
                match listing {
                    Some(entries) => Some(entries.deep_view()),
                    None => None,
                },
                tab_state as int,
            ) is None,
        },
{
    let words = split_whitespace(input);
    if words.len() == 0 {
        return None;
    }
    let chars = chars_of(input);
    let new_argument = chars.len() > 0 && is_whitespace(chars[chars.len() - 1]);
    if words.len() == 1 && !new_argument {
        assert(words.deep_view()[0] == words[0]@);
        let prefix = to_lowercase(words[0].as_str());
        let names = all_command_names(config);
        let candidates = sort_unique(select_prefixed(&names, prefix.as_str(), false));
        return match choose_candidate(&candidates, tab_state) {
            Some(name) => Some(name.clone()),
            None => None,
        };
    }
    let entries = match listing {
        Some(entries) => entries,
        None => {
            return None;
        },
    };
    let partial: Vec<char> = if new_argument {
        Vec::new()
    } else {
        assert(words.deep_view().last() == words[words.len() - 1]@);
        chars_of(words[words.len() - 1].as_str())
    };
    assert(partial@ =~= partial_of(input@));
    let cut = dir_length(&partial);
    let dir_part = string_of(&partial, 0, cut);
    let file_prefix = string_of(&partial, cut, partial.len());
    assert(dir_part@ =~= partial@.take(cut as int));
    assert(file_prefix@ =~= partial@.skip(cut as int));
    let shown = shown_entries(config.platform, entries);
    let wanted = to_lowercase(file_prefix.as_str());
    let candidates = sort_unique(select_prefixed(&shown, wanted.as_str(), true));
    match choose_candidate(&candidates, tab_state) {
        None => None,
        Some(chosen) => {
            let kept = kept_length(&chars);
            let mut line = string_of(&chars, 0, kept);
            assert(line@ =~= input@.take(kept as int));
            line.append(dir_part.as_str());
            line.append(chosen.as_str());
            Some(line)
        },
    }
}

/// The names that start with a prefix are the names that were there and
/// start with it, and no others.
proof fn lemma_prefixed_members(names: Seq<Seq<char>>, prefix: Seq<char>, fold_case: bool)
    ensures
        forall|name: Seq<char>|
            prefixed(names, prefix, fold_case).contains(name) <==> names.contains(name)
                && prefix.is_prefix_of(folded(name, fold_case)),
{
    let keeps = |name: Seq<char>| prefix.is_prefix_of(folded(name, fold_case));
    let kept = names.filter(keeps);
    assert forall|name: Seq<char>| kept.contains(name) <==> names.contains(name) && keeps(
        name,
    ) by {
        if kept.contains(name) {
            names.lemma_filter_contains_rev(keeps, name);
            let k = choose|k: int| 0 <= k < kept.len() && kept[k] == name;
            names.lemma_filter_pred(keeps, k);
        }
        if names.contains(name) && keeps(name) {
            let k = choose|k: int| 0 <= k < names.len() && names[k] == name;
            names.lemma_filter_contains(keeps, k);
        }
    }
}

/// The candidates for a command name are exactly the names of the built-ins
/// and of the permitted external programs that start with the typed word in
/// lowercase, each once, in ascending order.
pub proof fn lemma_command_candidates(config: ShellConfig, word: Seq<char>)
    ensures
        strictly_ascending(command_candidates(config, word)),
        forall|name: Seq<char>|
            command_candidates(config, word).contains(name) <==> command_names(config).contains(
                name,
            ) && lowercase_of(word).is_prefix_of(name),
{
    let matching = prefixed(command_names(config), lowercase_of(word), false);
    lemma_sorted_members(matching);
    lemma_prefixed_members(command_names(config), lowercase_of(word), false);
}

/// The candidates for a path are exactly the shown names of the entries that
/// start, case set aside, with the typed prefix, each once, in ascending
/// order.
pub proof fn lemma_path_candidates(
    platform: Platform,
    entries: Seq<(Seq<char>, bool)>,
    file_prefix: Seq<char>,
)
    ensures
        strictly_ascending(path_candidates(platform, entries, file_prefix)),
        forall|name: Seq<char>|
            path_candidates(platform, entries, file_prefix).contains(name) <==> shown_names(
                platform,
                entries,
            ).contains(name) && lowercase_of(file_prefix).is_prefix_of(lowercase_of(name)),
{
    let matching = prefixed(shown_names(platform, entries), lowercase_of(file_prefix), true);
    lemma_sorted_members(matching);
    lemma_prefixed_members(shown_names(platform, entries), lowercase_of(file_prefix), true);
}

/// Completion walks through the candidates in order and starts over after
/// the last: the first presses select the candidates one by one, and a press
/// selects what the press as many candidates earlier selected.
pub proof fn lemma_completion_cycles(candidates: Seq<Seq<char>>, presses: nat)
    ensures
        presses < candidates.len() ==> pick(candidates, presses as int) == Some(
            candidates[presses as int],
        ),
        pick(candidates, (presses + candidates.len()) as int) == pick(candidates, presses as int),
        candidates.len() == 0 <==> pick(candidates, presses as int) is None,
{
    if candidates.len() > 0 {
        let n = candidates.len() as int;
        vstd::arithmetic::div_mod::lemma_mod_add_multiples_vanish(presses as int, n);
        if presses < n {
            vstd::arithmetic::div_mod::lemma_small_mod(presses, n as nat);
        }
    }
}

} // verus!
