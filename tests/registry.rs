use argus::{get_repos, RepoConfig, RepositoryError, RepositoryHandle, WorktreeError};

#[test]
fn each_entry_is_listed_on_its_own() {
    let configs = vec![
        RepoConfig { path: "/".to_string() },
        RepoConfig { path: "/nonexistent/argus/repo".to_string() },
    ];
    let repos = get_repos(&configs);
    assert_eq!(repos.len(), 2);
    assert_eq!(
        repos[0].as_ref().err(),
        Some(&WorktreeError::Repository(RepositoryError::NotARepository))
    );
    assert_eq!(
        repos[1].as_ref().err(),
        Some(&WorktreeError::Repository(RepositoryError::NotARepository))
    );
}

#[test]
fn open_missing_repository() {
    assert_eq!(
        RepositoryHandle::open("/nonexistent/argus/repo").err(),
        Some(RepositoryError::NotARepository)
    );
}
