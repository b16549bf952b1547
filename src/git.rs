//! Worktrees of a repository on disk, through libgit2.
//!
//! What the repository holds is read from disk, so the functions here state
//! what holds whatever the backend answers; the decisions they take stand in
//! `worktree`, where they are stated exactly.

use crate::worktree::{
    added_worktree, assemble, check_target, create_outcome, created_path, distinct, dto_names,
    handle_outcome, plan_create, present, present_names, prune_result, resolve_removal, texts,
    valid_name, RepositoryError, WorktreeError,
};
use vstd::prelude::*;

verus! {

#[verifier::external_type_specification]
#[verifier::external_body]
pub struct ExRepository(git2::Repository);

#[verifier::external_type_specification]
#[verifier::external_body]
pub struct ExGitWorktree(git2::Worktree);

#[verifier::external_type_specification]
#[verifier::external_body]
pub struct ExGitError(git2::Error);

/// Relies on git2::Repository::open: opens the repository at `path`, bare or
/// not, and fails where there is none.
#[verifier::external_body]
fn open_repo(path: &str) -> (r: Result<git2::Repository, git2::Error>) {
    git2::Repository::open(path)
}

/// Relies on git2::Repository::workdir: the working directory, `None` for a
/// bare repository; `Some(None)` where its path is not UTF-8.
#[verifier::external_body]
fn workdir_of(repo: &git2::Repository) -> (r: Option<Option<String>>) {
    repo.workdir().map(|p| p.to_str().map(|s| s.to_string()))
}

/// Relies on git2::Repository::worktrees: the names of the registered
/// worktrees, `None` for a name that is not UTF-8. libgit2 reads them as the
/// entries of one directory (`git_worktree_list`), so no name occurs twice.
#[verifier::external_body]
fn worktree_entries(repo: &git2::Repository) -> (r: Result<Vec<Option<String>>, git2::Error>)
    ensures
        r matches Ok(e) ==> distinct(present(e@)),
{
    repo.worktrees().map(|a| a.iter().map(|n| n.map(|s| s.to_string())).collect())
}

/// Relies on git2::Repository::find_worktree: the worktree registered under
/// `name`; fails where there is none.
#[verifier::external_body]
fn find_worktree(repo: &git2::Repository, name: &str) -> (r: Result<git2::Worktree, git2::Error>) {
    repo.find_worktree(name)
}

/// Relies on git2::Worktree::path: the worktree's working directory, `None`
/// where that path is not UTF-8.
#[verifier::external_body]
fn path_of(wt: &git2::Worktree) -> (r: Option<String>) {
    wt.path().to_str().map(|s| s.to_string())
}

/// Relies on git2::Repository::worktree: registers worktree `name` and checks
/// it out at `path`.
#[verifier::external_body]
fn add_worktree_at(repo: &git2::Repository, name: &str, path: &str) -> (r: Result<
    (),
    git2::Error,
>) {
    repo.worktree(name, std::path::Path::new(path), None).map(|_| ())
}

/// Relies on git2::Worktree::prune with default options: removes the
/// administrative entry of a worktree whose working directory is gone.
#[verifier::external_body]
fn prune_entry(wt: &git2::Worktree) -> (r: Result<(), git2::Error>) {
    wt.prune(None)
}

/// Relies on std::path::Path::exists: whether anything is at `path`.
#[verifier::external_body]
fn path_exists(path: &str) -> (r: bool) {
    std::path::Path::new(path).exists()
}

/// An open repository that has a working directory.
pub struct RepositoryHandle {
    repo: git2::Repository,
    workdir: String,
}

impl RepositoryHandle {
    /// The repository's working directory.
    pub closed spec fn workdir_view(&self) -> Seq<char> {
        self.workdir@
    }

    /// Opens the repository at `path`. Fails with `NotARepository` where there
    /// is none, with `NoWorkingDirectory` where it is bare, and with
    /// `InvalidPath` where its working directory is not UTF-8.
    pub fn open(path: &str) -> (r: Result<RepositoryHandle, RepositoryError>) {
        let repo = match open_repo(path) {
            Ok(repo) => repo,
            Err(_) => return Err(RepositoryError::NotARepository),
        };
        match handle_outcome(workdir_of(&repo)) {
            Ok(workdir) => Ok(RepositoryHandle { repo, workdir }),
            Err(e) => Err(e),
        }
    }

    /// The working directory of the repository.
    pub fn workdir(&self) -> (r: &str)
        ensures
            r@ == self.workdir_view(),
    {
        self.workdir.as_str()
    }

    /// The names of the registered worktrees that can be read.
    fn names(&self) -> (r: Result<Vec<String>, WorktreeError>)
        ensures
            r matches Err(e) ==> e == WorktreeError::BackendError,
            r matches Ok(ns) ==> distinct(texts(ns@)),
    {
        match worktree_entries(&self.repo) {
            Ok(entries) => Ok(present_names(entries)),
            Err(_) => Err(WorktreeError::BackendError),
        }
    }

    /// The registered worktrees with their working directories, one entry per
    /// registered name, no name twice. Entries whose name cannot be read are
    /// left out; a worktree that cannot be resolved fails the listing with
    /// `BackendError`.
    pub fn list(&self) -> (r: Result<Vec<crate::worktree::WorktreeDto>, WorktreeError>)
        ensures
            r matches Err(e) ==> e == WorktreeError::BackendError,
            r matches Ok(v) ==> distinct(dto_names(v@)),
    {
        let names = match self.names() {
            Ok(names) => names,
            Err(e) => return Err(e),
        };
        let mut paths: Vec<Option<String>> = Vec::new();
        let mut i: usize = 0;
        while i < names.len()
            invariant
                i <= names@.len(),
                paths@.len() == i,
            decreases names@.len() - i,
        {
            let path = match find_worktree(&self.repo, names[i].as_str()) {
                Ok(wt) => path_of(&wt),
                Err(_) => None,
            };
            paths.push(path);
            i = i + 1;
        }
        let r = assemble(&names, paths);
        proof {
            if r is Ok {
                assert(dto_names(r->Ok_0@) =~= texts(names@));
            }
        }
        r
    }

    /// Creates worktree `name` at the path the naming policy derives for it.
    /// Fails with `InvalidName` on an empty name or one with a separator,
    /// `NameCollision` where the name is registered, `PathCollision` where
    /// something exists at the path, and `BackendError` where the backend
    /// fails; which of these comes is `create_outcome` of what the backend
    /// answered.
    pub fn create(&self, name: &str) -> (r: Result<crate::worktree::WorktreeDto, WorktreeError>)
        ensures
            r matches Ok(w) ==> w.name@ == name@,
            exists|names: Option<Seq<Seq<char>>>, taken: bool, added: bool|
                #[trigger] create_outcome(names, self.workdir_view(), name@, taken, added)
                    == created_path(r),
    {
        let ghost wd = self.workdir_view();
        if !valid_name(name) {
            let r = Err(WorktreeError::InvalidName);
            assert(create_outcome(None, wd, name@, false, false) == created_path(r));
            return r;
        }
        let names = match self.names() {
            Ok(names) => names,
            Err(e) => {
                let r = Err(e);
                assert(create_outcome(None, wd, name@, false, false) == created_path(r));
                return r;
            },
        };
        let ghost ns = Some(texts(names@));
        let path = match plan_create(&names, self.workdir.as_str(), name) {
            Ok(path) => path,
            Err(e) => {
                let r = Err(e);
                assert(create_outcome(ns, wd, name@, false, false) == created_path(r));
                return r;
            },
        };
        let taken = path_exists(path.as_str());
        let path = match check_target(path, taken) {
            Ok(path) => path,
            Err(e) => {
                let r = Err(e);
                assert(create_outcome(ns, wd, name@, taken, false) == created_path(r));
                return r;
            },
        };
        let added = match add_worktree_at(&self.repo, name, path.as_str()) {
            Ok(()) => true,
            Err(_) => false,
        };
        let r = added_worktree(name, path, added);
        assert(create_outcome(ns, wd, name@, taken, added) == created_path(r));
        r
    }

    /// The first phase of a delete: the working directory of worktree `name`
    /// that the caller removes before calling `finish_delete`, or `None` where
    /// it is gone already (a delete that failed while pruning is being
    /// retried) and only pruning is left. Fails with `NotFound` where no such
    /// worktree is registered.
    pub fn locate(&self, name: &str) -> (r: Result<Option<String>, WorktreeError>)
        ensures
            r matches Err(e) ==> e == WorktreeError::NotFound || e == WorktreeError::BackendError,
    {
        let wt = match find_worktree(&self.repo, name) {
            Ok(wt) => wt,
            Err(_) => return Err(WorktreeError::NotFound),
        };
        let path = path_of(&wt);
        let present = match &path {
            Some(p) => path_exists(p.as_str()),
            None => false,
        };
        resolve_removal(path, present)
    }

    /// The second phase of a delete: with `removed` false the working
    /// directory could not be removed and nothing is touched; otherwise the
    /// administrative entry is pruned, and a failure there leaves the
    /// worktree pending a retry.
    pub fn finish_delete(&self, name: &str, removed: bool) -> (r: Result<(), WorktreeError>)
        ensures
            !removed ==> r == Err::<(), WorktreeError>(WorktreeError::FilesystemRemovalFailed),
            removed ==> (r matches Err(e) ==> e == WorktreeError::NotFound || e
                == WorktreeError::PartialDeleteOrphanedMetadata),
    {
        if !removed {
            return Err(WorktreeError::FilesystemRemovalFailed);
        }
        let wt = match find_worktree(&self.repo, name) {
            Ok(wt) => wt,
            Err(_) => return Err(WorktreeError::NotFound),
        };
        let pruned = match prune_entry(&wt) {
            Ok(()) => true,
            Err(_) => false,
        };
        prune_result(pruned)
    }
}

} // verus!
