use libman::{equalfold, split_command, str_eq, trim};

#[test]
fn split_bare_word() {
    let (cmd, arg) = split_command("play");
    assert_eq!(cmd, "play");
    assert_eq!(arg, None);
}

#[test]
fn split_consumes_only_first_whitespace_run() {
    let (cmd, arg) = split_command("play  foo bar");
    assert_eq!(cmd, "play");
    assert_eq!(arg, Some("foo bar".to_string()));
}

#[test]
fn split_trailing_whitespace_normalizes_to_none() {
    let (cmd, arg) = split_command("play ");
    assert_eq!(cmd, "play");
    assert_eq!(arg, None);
}

#[test]
fn split_whitespace_only_argument_is_none() {
    let (cmd, arg) = split_command("play   \t  ");
    assert_eq!(cmd, "play");
    assert_eq!(arg, None);
}

#[test]
fn split_preserves_inner_and_trailing_argument_whitespace() {
    let (cmd, arg) = split_command("prompt a  b ");
    assert_eq!(cmd, "prompt");
    assert_eq!(arg, Some("a  b ".to_string()));
}

#[test]
fn split_single_space_separator() {
    let (cmd, arg) = split_command("search metal");
    assert_eq!(cmd, "search");
    assert_eq!(arg, Some("metal".to_string()));
}

#[test]
fn split_tab_separator() {
    let (cmd, arg) = split_command("vol\t50");
    assert_eq!(cmd, "vol");
    assert_eq!(arg, Some("50".to_string()));
}

#[test]
fn split_empty_line() {
    let (cmd, arg) = split_command("");
    assert_eq!(cmd, "");
    assert_eq!(arg, None);
}

#[test]
fn split_leading_whitespace_makes_empty_command() {
    let (cmd, arg) = split_command(" play");
    assert_eq!(cmd, "");
    assert_eq!(arg, Some("play".to_string()));
}

#[test]
fn trim_both_ends() {
    assert_eq!(trim("  hello world \t"), "hello world");
    assert_eq!(trim(""), "");
    assert_eq!(trim("   "), "");
    assert_eq!(trim("x"), "x");
}

#[test]
fn equalfold_cases() {
    assert!(equalfold("PLAY", "play"));
    assert!(equalfold("Play", "play"));
    assert!(equalfold("play", "play"));
    assert!(!equalfold("play", "pla"));
    assert!(!equalfold("play", "stop"));
    assert!(equalfold("", ""));
    // `ß` uppercases to `SS`: it folds equal to no single character.
    assert!(!equalfold("straße", "strasse"));
    assert!(equalfold("GRÜSSE", "grüsse"));
}

#[test]
fn str_eq_is_exact() {
    assert!(str_eq("lib", "lib"));
    assert!(!str_eq("Lib", "lib"));
    assert!(!str_eq("lib", "libx"));
}
