use argus::worktree::{
    added_worktree, assemble, check_target, handle_outcome, prune_result, resolve_removal,
};
use argus::{RepositoryError, WorktreeError};

#[test]
fn assemble_pairs_names_with_paths() {
    let names = vec!["a".to_string(), "b".to_string()];
    let v = assemble(
        &names,
        vec![Some("/tmp/demo.worktrees/a".to_string()), Some("/tmp/demo.worktrees/b".to_string())],
    )
    .unwrap();
    assert_eq!(v.len(), 2);
    assert_eq!(v[0].name, "a");
    assert_eq!(v[0].path, "/tmp/demo.worktrees/a");
    assert_eq!(v[1].name, "b");
    assert_eq!(v[1].path, "/tmp/demo.worktrees/b");
}

#[test]
fn assemble_fails_on_unresolved_path() {
    let names = vec!["a".to_string(), "b".to_string()];
    let r = assemble(&names, vec![Some("/x/a".to_string()), None]);
    assert_eq!(r.err(), Some(WorktreeError::BackendError));
    assert!(assemble(&Vec::new(), Vec::new()).unwrap().is_empty());
}

#[test]
fn target_check() {
    assert_eq!(check_target("/x/a".to_string(), false), Ok("/x/a".to_string()));
    assert_eq!(check_target("/x/a".to_string(), true), Err(WorktreeError::PathCollision));
}

#[test]
fn backend_add_outcome() {
    let w = added_worktree("a", "/x/a".to_string(), true).unwrap();
    assert_eq!(w.name, "a");
    assert_eq!(w.path, "/x/a");
    assert_eq!(
        added_worktree("a", "/x/a".to_string(), false).err(),
        Some(WorktreeError::BackendError)
    );
}

#[test]
fn removal_resolution() {
    assert_eq!(
        resolve_removal(Some("/x/a".to_string()), true),
        Ok(Some("/x/a".to_string()))
    );
    assert_eq!(resolve_removal(Some("/x/a".to_string()), false), Ok(None));
    assert_eq!(resolve_removal(None, true), Err(WorktreeError::BackendError));
}

#[test]
fn prune_outcome() {
    assert_eq!(prune_result(true), Ok(()));
    assert_eq!(
        prune_result(false),
        Err(WorktreeError::PartialDeleteOrphanedMetadata)
    );
}

#[test]
fn working_directory_outcome() {
    assert_eq!(handle_outcome(None), Err(RepositoryError::NoWorkingDirectory));
    assert_eq!(handle_outcome(Some(None)), Err(RepositoryError::InvalidPath));
    assert_eq!(
        handle_outcome(Some(Some("/tmp/demo/".to_string()))),
        Ok("/tmp/demo/".to_string())
    );
}
