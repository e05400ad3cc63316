use blaze_terminal::tokenizer::split_args;

#[test]
fn split_args_handles_quoted_segments() {
    let args = split_args("echo \"hello world\" test");
    assert_eq!(args, vec!["echo", "hello world", "test"]);
}

#[test]
fn split_args_handles_escaped_quote_inside_quotes() {
    let args = split_args("echo \"he\\\"llo\"");
    assert_eq!(args, vec!["echo", "he\"llo"]);
}

#[test]
fn split_args_preserves_shell_metacharacters_as_literals() {
    let args = split_args("echo hello && rm file.txt");
    assert_eq!(args, vec!["echo", "hello", "&&", "rm", "file.txt"]);
}

#[test]
fn split_args_collapses_whitespace_between_args() {
    let args = split_args("  grep    TODO   file.rs  ");
    assert_eq!(args, vec!["grep", "TODO", "file.rs"]);
}

#[test]
fn split_args_of_empty_line_is_empty() {
    assert!(split_args("").is_empty());
    assert!(split_args("   \t ").is_empty());
}

#[test]
fn split_args_tolerates_unterminated_quote() {
    assert_eq!(split_args("echo \"open end"), vec!["echo", "open end"]);
}

#[test]
fn split_args_keeps_lone_backslash() {
    assert_eq!(split_args("dir C:\\Users\\me"), vec!["dir", "C:\\Users\\me"]);
    assert_eq!(split_args("tail\\"), vec!["tail\\"]);
}

#[test]
fn split_args_drops_empty_quoted_token() {
    assert_eq!(split_args("echo \"\" x"), vec!["echo", "x"]);
}

#[test]
fn split_args_joins_quoted_and_bare_parts() {
    assert_eq!(split_args("a\"b c\"d e"), vec!["ab cd", "e"]);
}

#[test]
fn split_args_treats_operators_as_text() {
    assert_eq!(split_args("cat a|b;c>d<e"), vec!["cat", "a|b;c>d<e"]);
}

#[test]
fn split_args_splits_on_unicode_whitespace() {
    assert_eq!(split_args("a\u{a0}b\u{3000}c"), vec!["a", "b", "c"]);
}
