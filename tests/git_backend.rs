use argus::{RepositoryHandle, WorktreeError};

fn fresh_repo(tag: &str) -> String {
    let nanos = std::time::SystemTime::now()
        .duration_since(std::time::UNIX_EPOCH)
        .unwrap()
        .as_nanos();
    let dir = format!("/tmp/argus-{}-{}/demo", tag, nanos);
    let repo = git2::Repository::init(&dir).unwrap();
    let sig = git2::Signature::now("tester", "tester@example.com").unwrap();
    let tree_id = repo.index().unwrap().write_tree().unwrap();
    let tree = repo.find_tree(tree_id).unwrap();
    repo.commit(Some("HEAD"), &sig, &sig, "init", &tree, &[]).unwrap();
    // libgit2 creates the worktree's directory but not its parent
    git2::Repository::init(format!("{}.worktrees", dir)).unwrap();
    dir
}

#[test]
fn git_create_list_and_collide() {
    let dir = fresh_repo("create");
    let handle = RepositoryHandle::open(&dir).unwrap();
    assert!(handle.list().unwrap().is_empty());
    let w = handle.create("feature-x").unwrap();
    let parent = dir.strip_suffix("/demo").unwrap();
    assert_eq!(w.name, "feature-x");
    assert_eq!(w.path, format!("{}/demo.worktrees/feature-x", parent));
    let list = handle.list().unwrap();
    assert_eq!(list.len(), 1);
    assert_eq!(list[0].name, "feature-x");
    assert!(list[0].path.trim_end_matches('/').ends_with("demo.worktrees/feature-x"));
    assert_eq!(handle.create("feature-x").err(), Some(WorktreeError::NameCollision));
    assert_eq!(handle.create("a/b").err(), Some(WorktreeError::InvalidName));
    assert_eq!(handle.list().unwrap().len(), 1);
}

#[test]
fn git_delete_phases() {
    let dir = fresh_repo("delete");
    let handle = RepositoryHandle::open(&dir).unwrap();
    assert_eq!(handle.locate("missing").err(), Some(WorktreeError::NotFound));
    handle.create("feature-x").unwrap();
    let path = handle.locate("feature-x").unwrap().unwrap();
    assert!(path.trim_end_matches('/').ends_with("demo.worktrees/feature-x"));
    assert_eq!(
        handle.finish_delete("feature-x", false),
        Err(WorktreeError::FilesystemRemovalFailed)
    );
    assert_eq!(handle.list().unwrap().len(), 1);
}

#[test]
fn git_bare_repository_is_refused() {
    let nanos = std::time::SystemTime::now()
        .duration_since(std::time::UNIX_EPOCH)
        .unwrap()
        .as_nanos();
    let dir = format!("/tmp/argus-bare-{}/demo.git", nanos);
    git2::Repository::init_bare(&dir).unwrap();
    assert_eq!(
        RepositoryHandle::open(&dir).err(),
        Some(argus::RepositoryError::NoWorkingDirectory)
    );
}

#[test]
fn git_registry_lists_repository_with_worktrees() {
    let dir = fresh_repo("registry");
    let handle = RepositoryHandle::open(&dir).unwrap();
    handle.create("feature-x").unwrap();
    let configs = vec![
        argus::RepoConfig { path: "/nonexistent/argus/repo".to_string() },
        argus::RepoConfig { path: dir.clone() },
    ];
    let repos = argus::get_repos(&configs);
    assert_eq!(repos.len(), 2);
    assert!(repos[0].is_err());
    let repo = repos[1].as_ref().ok().unwrap();
    assert_eq!(repo.path, dir);
    assert_eq!(repo.name, "demo");
    assert_eq!(repo.worktrees.len(), 1);
    assert_eq!(repo.worktrees[0].name, "feature-x");
}
