use argus::derive_path;
use argus::naming::{repository_name, split_workdir};
use argus::worktree::{contains_name, plan_create, present_names, same_text, valid_name};
use argus::{RepositoryError, WorktreeError};

#[test]
fn derive_path_of_demo() {
    assert_eq!(
        derive_path("/tmp/demo", "feature-x"),
        Some("/tmp/demo.worktrees/feature-x".to_string())
    );
}

#[test]
fn derive_path_ignores_trailing_slashes() {
    assert_eq!(
        derive_path("/tmp/demo/", "feature-x"),
        Some("/tmp/demo.worktrees/feature-x".to_string())
    );
    assert_eq!(
        derive_path("/home/me/src/argus//", "wip"),
        Some("/home/me/src/argus.worktrees/wip".to_string())
    );
}

#[test]
fn derive_path_at_root() {
    assert_eq!(derive_path("/demo", "x"), Some("/demo.worktrees/x".to_string()));
}

#[test]
fn derive_path_without_parent() {
    assert_eq!(derive_path("demo", "x"), None);
    assert_eq!(derive_path("/", "x"), None);
    assert_eq!(derive_path("", "x"), None);
}

#[test]
fn split_workdir_parts() {
    assert_eq!(
        split_workdir("/tmp/demo/"),
        Some(("/tmp".to_string(), "demo".to_string()))
    );
    assert_eq!(repository_name("/tmp/demo"), Some("demo".to_string()));
    assert_eq!(repository_name("demo"), None);
}

#[test]
fn worktree_names() {
    assert!(valid_name("feature-x"));
    assert!(!valid_name(""));
    assert!(!valid_name("a/b"));
    assert!(!valid_name("a\\b"));
}

#[test]
fn text_comparison() {
    assert!(same_text("abc", "abc"));
    assert!(!same_text("abc", "abd"));
    assert!(!same_text("abc", "ab"));
    let names = vec!["a".to_string(), "feature-x".to_string()];
    assert!(contains_name(&names, "feature-x"));
    assert!(!contains_name(&names, "feature"));
}

#[test]
fn unreadable_names_are_skipped() {
    let names = present_names(vec![Some("a".to_string()), None, Some("b".to_string())]);
    assert_eq!(names, vec!["a".to_string(), "b".to_string()]);
}

#[test]
fn plan_create_decisions() {
    let names = vec!["x".to_string()];
    assert_eq!(
        plan_create(&names, "/tmp/demo", "y"),
        Ok("/tmp/demo.worktrees/y".to_string())
    );
    assert_eq!(plan_create(&names, "/tmp/demo", "x"), Err(WorktreeError::NameCollision));
    assert_eq!(plan_create(&names, "/tmp/demo", ""), Err(WorktreeError::InvalidName));
    assert_eq!(plan_create(&names, "/tmp/demo", "a/b"), Err(WorktreeError::InvalidName));
    assert_eq!(
        plan_create(&names, "demo", "y"),
        Err(WorktreeError::Repository(RepositoryError::NoWorkingDirectory))
    );
}
