//! Splitting a typed line into argument tokens.
//!
//! This is deliberately not shell parsing. Double quotes keep whitespace
//! inside a token, a backslash before a double quote gives a literal quote,
//! and every other character, `&`, `|`, `;`, `<` and `>` included, is an
//! ordinary character.

use vstd::prelude::*;
use crate::text::char_is_whitespace;
use crate::text::chars_of;
use crate::text::finished;
use crate::text::is_whitespace;
use crate::text::push_char;

verus! {

/// The tokens that the rest of `s` from position `i` yields, given the token
/// collected so far and whether a quote is open.
pub open spec fn tokens_from(s: Seq<char>, i: int, current: Seq<char>, in_quotes: bool) -> Seq<
    Seq<char>,
>
    decreases s.len() - i,
{
    if i < 0 || i >= s.len() {
        // An open quote is closed by the end of the line.
        finished(current)
    } else if s[i] == '"' {
        tokens_from(s, i + 1, current, !in_quotes)
    } else if s[i] == '\\' {
        if i + 1 < s.len() && s[i + 1] == '"' {
            tokens_from(s, i + 2, current.push('"'), in_quotes)
        } else {
            tokens_from(s, i + 1, current.push('\\'), in_quotes)
        }
    } else if char_is_whitespace(s[i]) && !in_quotes {
        finished(current) + tokens_from(s, i + 1, Seq::empty(), false)
    } else {
        tokens_from(s, i + 1, current.push(s[i]), in_quotes)
    }
}

/// The argument tokens of the line `s`.
pub open spec fn tokens_of(s: Seq<char>) -> Seq<Seq<char>> {
    tokens_from(s, 0, Seq::empty(), false)
}

/// Splits a line into its argument tokens. Never fails; a line without
/// tokens gives an empty vector.
pub fn split_args(input: &str) -> (args: Vec<String>)
    ensures
        args.deep_view() == tokens_of(input@),
{
    let chars = chars_of(input);
    let mut args: Vec<String> = Vec::new();
    let mut current = String::new();
    let mut in_quotes = false;
    let mut i: usize = 0;
    assert(args.deep_view() + tokens_of(input@) =~= tokens_of(input@));
    while i < chars.len()
        invariant
            i <= chars.len(),
            chars@ == input@,
            tokens_of(input@) == args.deep_view() + tokens_from(
                input@,
                i as int,
                current@,
                in_quotes,
            ),
        decreases chars.len() - i,
    {
        let c = chars[i];
        if c == '"' {
            in_quotes = !in_quotes;
            i += 1;
        } else if c == '\\' {
            if i + 1 < chars.len() && chars[i + 1] == '"' {
                push_char(&mut current, '"');
                i += 2;
            } else {
                push_char(&mut current, '\\');
                i += 1;
            }
        } else if is_whitespace(c) && !in_quotes {
            let ghost before = args.deep_view();
            let ghost token = current@;
            let ghost rest = tokens_from(input@, i as int + 1, Seq::empty(), false);
            if !current.as_str().is_empty() {
                args.push(current);
                current = String::new();
                assert(args.deep_view() =~= before + finished(token));
            } else {
                assert(before + finished(token) =~= before);
                assert(current@ =~= Seq::empty());
            }
            assert(before + (finished(token) + rest) =~= (before + finished(token)) + rest);
            i += 1;
        } else {
            push_char(&mut current, c);
            i += 1;
        }
    }
    let ghost before = args.deep_view();
    if !current.as_str().is_empty() {
        args.push(current);
        assert(args.deep_view() =~= before + finished(current@));
    } else {
        assert(before + finished(current@) =~= before);
    }
    args
}

/// No token is empty: quotes that enclose nothing yield no token.
pub proof fn lemma_tokens_nonempty(s: Seq<char>, i: int, current: Seq<char>, in_quotes: bool)
    ensures
        forall|k: int|
            0 <= k < tokens_from(s, i, current, in_quotes).len() ==> (#[trigger] tokens_from(
                s,
                i,
                current,
                in_quotes,
            )[k]).len() > 0,
    decreases s.len() - i,
{
    let tokens = tokens_from(s, i, current, in_quotes);
    if i < 0 || i >= s.len() {
        assert(tokens == finished(current));
    } else if s[i] == '"' {
        lemma_tokens_nonempty(s, i + 1, current, !in_quotes);
        assert(tokens == tokens_from(s, i + 1, current, !in_quotes));
    } else if s[i] == '\\' {
        if i + 1 < s.len() && s[i + 1] == '"' {
            lemma_tokens_nonempty(s, i + 2, current.push('"'), in_quotes);
            assert(tokens == tokens_from(s, i + 2, current.push('"'), in_quotes));
        } else {
            lemma_tokens_nonempty(s, i + 1, current.push('\\'), in_quotes);
            assert(tokens == tokens_from(s, i + 1, current.push('\\'), in_quotes));
        }
    } else if char_is_whitespace(s[i]) && !in_quotes {
        lemma_tokens_nonempty(s, i + 1, Seq::empty(), false);
        let head = finished(current);
        let rest = tokens_from(s, i + 1, Seq::empty(), false);
        assert(tokens == head + rest);
        assert forall|k: int| 0 <= k < tokens.len() implies (#[trigger] tokens[k]).len() > 0 by {
            if k >= head.len() {
                assert(tokens[k] == rest[k - head.len()]);
            } else {
                assert(tokens[k] == head[k]);
            }
        }
    } else {
        lemma_tokens_nonempty(s, i + 1, current.push(s[i]), in_quotes);
        assert(tokens == tokens_from(s, i + 1, current.push(s[i]), in_quotes));
    }
}

} // verus!
