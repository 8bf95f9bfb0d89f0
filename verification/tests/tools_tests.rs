use voca::tools::{is_within_root, stays_inside, summarize_args};

#[test]
fn relative_paths_stay_inside() {
    assert!(stays_inside("src/main.rs"));
    assert!(stays_inside("./notes.txt"));
    assert!(stays_inside("a/..b/c"));
    assert!(stays_inside("..."));
    assert!(stays_inside(""));
    assert!(stays_inside("a//b/"));
}

#[test]
fn climbing_or_absolute_paths_are_refused() {
    assert!(!stays_inside("/etc/passwd"));
    assert!(!stays_inside(".."));
    assert!(!stays_inside("../secret"));
    assert!(!stays_inside("a/../../b"));
    assert!(!stays_inside("a/.."));
    assert!(!stays_inside("a/../b"));
}

#[test]
fn summary_prefers_path_then_pattern_then_command() {
    assert_eq!(summarize_args(r#"{"path":"src/lib.rs","command":"ls"}"#), "src/lib.rs");
    assert_eq!(summarize_args(r#"{"pattern":"TODO","command":"ls"}"#), "TODO");
    assert_eq!(summarize_args(r#"{"command":"cargo test"}"#), "cargo test");
    assert_eq!(summarize_args(r#"{"path":1,"command":"ls"}"#), "ls");
}

#[test]
fn summary_is_cut_to_eighty_characters() {
    let long = "é".repeat(100);
    let args = format!("{{\"command\":\"{}\"}}", long);
    assert_eq!(summarize_args(&args), "é".repeat(80));
}

#[test]
fn summary_of_unreadable_arguments_is_empty() {
    assert_eq!(summarize_args("not json"), "");
    assert_eq!(summarize_args("[1,2]"), "");
    assert_eq!(summarize_args(r#"{"content":"x"}"#), "");
}

#[test]
fn resolved_paths_must_stay_under_the_root() {
    assert!(is_within_root("/home/u/proj", "/home/u/proj"));
    assert!(is_within_root("/home/u/proj", "/home/u/proj/src/main.rs"));
    assert!(!is_within_root("/home/u/proj", "/home/u/project2/x"));
    assert!(!is_within_root("/home/u/proj", "/etc/passwd"));
    assert!(is_within_root("/", "/etc"));
}
