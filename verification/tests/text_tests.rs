//! Unit tests for the tokenizer and the path-text helpers.

use minishell::paths::{base_name, join_path};
use minishell::text::{join_spaces, tokenize};

#[test]
fn tokenize_splits_on_runs_of_whitespace() {
    let ts = tokenize("  cp \t a.txt   dir/ ");
    assert_eq!(ts, vec!["cp".to_string(), "a.txt".to_string(), "dir/".to_string()]);
}

#[test]
fn tokenize_empty_and_blank_lines_give_no_tokens() {
    assert!(tokenize("").is_empty());
    assert!(tokenize(" \t\r\n").is_empty());
}

#[test]
fn tokenize_single_token() {
    assert_eq!(tokenize("pwd"), vec!["pwd".to_string()]);
}

#[test]
fn join_spaces_round_trips_simple_tokens() {
    let ts = tokenize("a b c");
    assert_eq!(join_spaces(&ts), "a b c".to_string());
}

#[test]
fn join_path_inserts_separator_only_when_needed() {
    assert_eq!(join_path("dir", "a.txt"), "dir/a.txt".to_string());
    assert_eq!(join_path("dir/", "a.txt"), "dir/a.txt".to_string());
    assert_eq!(join_path("", "a.txt"), "a.txt".to_string());
}

#[test]
fn base_name_takes_final_component() {
    assert_eq!(base_name("a/b/c.txt"), Some("c.txt".to_string()));
    assert_eq!(base_name("c.txt"), Some("c.txt".to_string()));
    assert_eq!(base_name("a/b/"), Some("b".to_string()));
}

#[test]
fn base_name_rejects_paths_without_a_component() {
    assert_eq!(base_name(""), None);
    assert_eq!(base_name("/"), None);
    assert_eq!(base_name(".."), None);
    assert_eq!(base_name("a/.."), None);
    assert_eq!(base_name("."), None);
}
