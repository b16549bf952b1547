use argus::{WorktreeDto, WorktreeError, WorktreeStore};

fn names(list: &[WorktreeDto]) -> Vec<String> {
    list.iter().map(|w| w.name.clone()).collect()
}

#[test]
fn list_has_one_entry_per_worktree() {
    let mut s = WorktreeStore::new("/tmp/demo");
    assert!(s.list().is_empty());
    s.create("a").unwrap();
    s.create("b").unwrap();
    s.create("c").unwrap();
    let list = s.list();
    assert_eq!(list.len(), 3);
    assert_eq!(names(&list), vec!["a", "b", "c"]);
}

#[test]
fn created_worktree_is_listed_at_derived_path() {
    let mut s = WorktreeStore::new("/tmp/demo");
    let w = s.create("x").unwrap();
    assert_eq!(w.name, "x");
    assert_eq!(w.path, "/tmp/demo.worktrees/x");
    let list = s.list();
    assert_eq!(list.len(), 1);
    assert_eq!(list[0].name, "x");
    assert_eq!(list[0].path, "/tmp/demo.worktrees/x");
}

#[test]
fn create_twice_collides() {
    let mut s = WorktreeStore::new("/tmp/demo");
    assert!(s.create("x").is_ok());
    assert_eq!(s.create("x").err(), Some(WorktreeError::NameCollision));
    let list = s.list();
    assert_eq!(names(&list), vec!["x"]);
}

#[test]
fn create_rejects_invalid_names() {
    let mut s = WorktreeStore::new("/tmp/demo");
    assert_eq!(s.create("").err(), Some(WorktreeError::InvalidName));
    assert_eq!(s.create("a/b").err(), Some(WorktreeError::InvalidName));
    assert!(s.list().is_empty());
}

#[test]
fn create_refuses_existing_path() {
    let mut s = WorktreeStore::new("/tmp/demo");
    s.add_dir("/tmp/demo.worktrees/x");
    assert_eq!(s.create("x").err(), Some(WorktreeError::PathCollision));
    assert!(s.list().is_empty());
    assert!(s.create("y").is_ok());
}

#[test]
fn delete_after_create_unregisters() {
    let mut s = WorktreeStore::new("/tmp/demo");
    s.create("x").unwrap();
    s.create("y").unwrap();
    assert_eq!(s.delete("x"), Ok(()));
    assert_eq!(names(&s.list()), vec!["y"]);
    // the directory is gone: the name and its path are free again
    let w = s.create("x").unwrap();
    assert_eq!(w.path, "/tmp/demo.worktrees/x");
}

#[test]
fn delete_missing_is_not_found() {
    let mut s = WorktreeStore::new("/tmp/demo");
    s.create("x").unwrap();
    assert_eq!(s.delete("missing"), Err(WorktreeError::NotFound));
    assert_eq!(names(&s.list()), vec!["x"]);
}

#[test]
fn failed_removal_changes_nothing() {
    let mut s = WorktreeStore::new("/tmp/demo");
    s.create("x").unwrap();
    s.set_fail_removal(true);
    assert_eq!(s.delete("x"), Err(WorktreeError::FilesystemRemovalFailed));
    assert_eq!(names(&s.list()), vec!["x"]);
    s.set_fail_removal(false);
    assert_eq!(s.delete("x"), Ok(()));
    assert!(s.list().is_empty());
}

#[test]
fn demo_scenario() {
    let mut s = WorktreeStore::new("/tmp/demo");
    let w = s.create("feature-x").unwrap();
    assert_eq!(w.path, "/tmp/demo.worktrees/feature-x");
    let list = s.list();
    assert_eq!(list.len(), 1);
    assert_eq!(list[0].name, "feature-x");
    assert_eq!(list[0].path, "/tmp/demo.worktrees/feature-x");
    assert_eq!(s.delete("feature-x"), Ok(()));
    assert!(s.list().is_empty());
    // nothing is left at the worktree's path
    s.create("feature-x").unwrap();
}

#[test]
fn partial_delete_then_retry() {
    let mut s = WorktreeStore::new("/tmp/demo");
    s.create("feature-x").unwrap();
    s.set_fail_prune(true);
    assert_eq!(s.delete("feature-x"), Err(WorktreeError::PartialDeleteOrphanedMetadata));
    assert_eq!(names(&s.list()), vec!["feature-x"]);
    s.set_fail_prune(false);
    // the directory is already gone, so removal is not attempted again
    s.set_fail_removal(true);
    assert_eq!(s.delete("feature-x"), Ok(()));
    assert!(s.list().is_empty());
}
