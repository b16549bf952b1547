//! Listing every registered repository with its worktrees. Each entry stands
//! on its own: a repository that cannot be read does not hide the others.

use crate::config::RepoConfig;
use crate::git::RepositoryHandle;
use crate::naming::{repo_name, repository_name};
use crate::worktree::{RepositoryDto, RepositoryError, WorktreeError};
use vstd::prelude::*;

verus! {

/// What the listing of one repository entry may be: the repository's path and
/// name taken from its configuration, or an error; a path with no final
/// component is no repository.
pub open spec fn entry_listed(c: RepoConfig, r: Result<RepositoryDto, WorktreeError>) -> bool {
    match repo_name(c.path@) {
        None => r == Err::<RepositoryDto, WorktreeError>(
            WorktreeError::Repository(RepositoryError::NotARepository),
        ),
        Some(n) => r matches Ok(d) ==> d.path@ == c.path@ && d.name@ == n,
    }
}

/// Opens the repository of `config` and lists its worktrees.
pub fn list_repository(config: &RepoConfig) -> (r: Result<RepositoryDto, WorktreeError>)
    ensures
        entry_listed(*config, r),
{
    let name = match repository_name(config.path.as_str()) {
        Some(n) => n,
        None => return Err(WorktreeError::Repository(RepositoryError::NotARepository)),
    };
    let handle = match RepositoryHandle::open(config.path.as_str()) {
        Ok(h) => h,
        Err(e) => return Err(WorktreeError::Repository(e)),
    };
    match handle.list() {
        Ok(worktrees) => Ok(RepositoryDto { path: config.path.clone(), name, worktrees }),
        Err(e) => Err(e),
    }
}

/// Every registered repository with its worktrees, one result per entry, in
/// the order of `configs`.
pub fn get_repos(configs: &Vec<RepoConfig>) -> (r: Vec<Result<RepositoryDto, WorktreeError>>)
    ensures
        r@.len() == configs@.len(),
        forall|i: int| 0 <= i < r@.len() ==> entry_listed(configs@[i], #[trigger] r@[i]),
{
    let mut out: Vec<Result<RepositoryDto, WorktreeError>> = Vec::new();
    let mut i: usize = 0;
    while i < configs.len()
        invariant
            i <= configs@.len(),
            out@.len() == i,
            forall|j: int| 0 <= j < i ==> entry_listed(configs@[j], #[trigger] out@[j]),
        decreases configs@.len() - i,
    {
        out.push(list_repository(&configs[i]));
        i = i + 1;
    }
    out
}

} // verus!
