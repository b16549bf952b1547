//! Worktrees, their errors, and the decisions that listing and creating
//! worktrees take whatever the backend is.

use crate::naming::{derive_path, is_separator, worktree_path};
use vstd::prelude::*;
use vstd::string::*;

verus! {

/// A worktree as callers see it: its name and the path of its working
/// directory.
pub struct WorktreeDto {
    pub name: String,
    pub path: String,
}

impl WorktreeDto {
    pub open spec fn view(&self) -> (Seq<char>, Seq<char>) {
        (self.name@, self.path@)
    }

    /// A copy of this worktree.
    pub fn duplicate(&self) -> (r: WorktreeDto)
        ensures
            r.view() == self.view(),
    {
        WorktreeDto { name: self.name.clone(), path: self.path.clone() }
    }
}

/// A repository with the worktrees found in it.
pub struct RepositoryDto {
    pub path: String,
    pub name: String,
    pub worktrees: Vec<WorktreeDto>,
}

/// Why a path could not be opened as a repository.
#[derive(Clone, Copy, Debug, PartialEq, Eq, Structural)]
pub enum RepositoryError {
    /// The path holds no repository.
    NotARepository,
    /// The repository is bare, or its working directory has no parent or name.
    NoWorkingDirectory,
    /// The path of the working directory is not UTF-8.
    InvalidPath,
}

/// Why a worktree operation failed.
#[derive(Clone, Copy, Debug, PartialEq, Eq, Structural)]
pub enum WorktreeError {
    /// The name is empty or holds a path separator.
    InvalidName,
    /// A worktree of that name is already registered.
    NameCollision,
    /// Something already exists at the worktree's path.
    PathCollision,
    /// No worktree of that name is registered.
    NotFound,
    /// The working directory could not be removed; nothing was changed.
    FilesystemRemovalFailed,
    /// The backend failed.
    BackendError,
    /// The working directory was removed but its administrative entry was not
    /// pruned; deleting again finishes the job.
    PartialDeleteOrphanedMetadata,
    /// The repository could not be opened.
    Repository(RepositoryError),
}

/// A worktree name is not empty and holds no path separator.
pub open spec fn is_valid_name(name: Seq<char>) -> bool {
    name.len() > 0 && forall|i: int| 0 <= i < name.len() ==> !is_separator(#[trigger] name[i])
}

/// The names of `names`.
pub open spec fn texts(names: Seq<String>) -> Seq<Seq<char>> {
    names.map_values(|s: String| s@)
}

/// The entries of `entries` that hold a name, in order.
pub open spec fn present(entries: Seq<Option<String>>) -> Seq<Seq<char>>
    decreases entries.len(),
{
    if entries.len() == 0 {
        Seq::empty()
    } else {
        let rest = present(entries.drop_last());
        match entries.last() {
            Some(s) => rest.push(s@),
            None => rest,
        }
    }
}

/// What creating worktree `name` decides before any filesystem check: the
/// target path, or why there is none.
pub open spec fn create_plan(names: Seq<Seq<char>>, workdir: Seq<char>, name: Seq<char>) -> Result<
    Seq<char>,
    WorktreeError,
> {
    if !is_valid_name(name) {
        Err(WorktreeError::InvalidName)
    } else if names.contains(name) {
        Err(WorktreeError::NameCollision)
    } else {
        match worktree_path(workdir, name) {
            Some(p) => Ok(p),
            None => Err(WorktreeError::Repository(RepositoryError::NoWorkingDirectory)),
        }
    }
}

/// Whether `name` is a valid worktree name.
pub fn valid_name(name: &str) -> (r: bool)
    ensures
        r == is_valid_name(name@),
{
    let n = name.unicode_len();
    let mut i: usize = 0;
    while i < n
        invariant
            n == name@.len(),
            i <= n,
            forall|j: int| 0 <= j < i ==> !is_separator(#[trigger] name@[j]),
        decreases n - i,
    {
        let c = name.get_char(i);
        if c == '/' || c == '\\' {
            return false;
        }
        i = i + 1;
    }
    n > 0
}

/// Whether two strings hold the same characters.
pub fn same_text(a: &str, b: &str) -> (r: bool)
    ensures
        r == (a@ == b@),
{
    let n = a.unicode_len();
    if n != b.unicode_len() {
        return false;
    }
    let mut i: usize = 0;
    while i < n
        invariant
            n == a@.len() == b@.len(),
            i <= n,
            forall|j: int| 0 <= j < i ==> a@[j] == b@[j],
        decreases n - i,
    {
        if a.get_char(i) != b.get_char(i) {
            return false;
        }
        i = i + 1;
    }
    assert(a@ =~= b@);
    true
}

/// Whether `names` holds `name`.
pub fn contains_name(names: &Vec<String>, name: &str) -> (r: bool)
    ensures
        r == texts(names@).contains(name@),
{
    let mut i: usize = 0;
    while i < names.len()
        invariant
            i <= names@.len(),
            forall|j: int| 0 <= j < i ==> names@[j]@ != name@,
        decreases names@.len() - i,
    {
        if same_text(names[i].as_str(), name) {
            assert(texts(names@)[i as int] == name@);
            return true;
        }
        i = i + 1;
    }
    proof {
        if texts(names@).contains(name@) {
            let k = choose|k: int| 0 <= k < texts(names@).len() && texts(names@)[k] == name@;
            assert(names@[k]@ == name@);
        }
    }
    false
}

/// The names that the backend reported, without the entries whose name could
/// not be read: those worktrees are left out of every listing on purpose.
pub fn present_names(entries: Vec<Option<String>>) -> (r: Vec<String>)
    ensures
        texts(r@) == present(entries@),
{
    let mut out: Vec<String> = Vec::new();
    let mut i: usize = 0;
    while i < entries.len()
        invariant
            i <= entries@.len(),
            texts(out@) == present(entries@.subrange(0, i as int)),
        decreases entries@.len() - i,
    {
        proof {
            assert(entries@.subrange(0, i + 1).drop_last() =~= entries@.subrange(0, i as int));
        }
        match &entries[i] {
            Some(s) => {
                out.push(s.clone());
            },
            None => {},
        }
        proof {
            assert(texts(out@) =~= present(entries@.subrange(0, i + 1)));
        }
        i = i + 1;
    }
    assert(entries@.subrange(0, entries@.len() as int) =~= entries@);
    out
}

/// Decides where worktree `name` goes, given the names already registered and
/// the repository's working directory.
pub fn plan_create(names: &Vec<String>, workdir: &str, name: &str) -> (r: Result<
    String,
    WorktreeError,
>)
    ensures
        r matches Ok(p) ==> create_plan(texts(names@), workdir@, name@) == Ok::<
            Seq<char>,
            WorktreeError,
        >(p@),
        r matches Err(e) ==> create_plan(texts(names@), workdir@, name@) == Err::<
            Seq<char>,
            WorktreeError,
        >(e),
{
    if !valid_name(name) {
        return Err(WorktreeError::InvalidName);
    }
    if contains_name(names, name) {
        return Err(WorktreeError::NameCollision);
    }
    match derive_path(workdir, name) {
        Some(p) => Ok(p),
        None => Err(WorktreeError::Repository(RepositoryError::NoWorkingDirectory)),
    }
}

/// No name occurs twice.
pub open spec fn distinct(names: Seq<Seq<char>>) -> bool {
    forall|i: int, j: int| 0 <= i < j < names.len() ==> names[i] != names[j]
}

/// The names of a listing.
pub open spec fn dto_names(v: Seq<WorktreeDto>) -> Seq<Seq<char>> {
    v.map_values(|w: WorktreeDto| w.name@)
}

/// What a create returns, with the worktree reduced to its path.
pub open spec fn created_path(r: Result<WorktreeDto, WorktreeError>) -> Result<Seq<char>, WorktreeError> {
    match r {
        Ok(w) => Ok(w.path@),
        Err(e) => Err(e),
    }
}

/// What creating worktree `name` gives: `names` are the registered names
/// (`None` where the backend could not list them), `taken` whether something
/// exists at the target path, `added` whether the backend added the worktree.
pub open spec fn create_outcome(
    names: Option<Seq<Seq<char>>>,
    workdir: Seq<char>,
    name: Seq<char>,
    taken: bool,
    added: bool,
) -> Result<Seq<char>, WorktreeError> {
    if !is_valid_name(name) {
        Err(WorktreeError::InvalidName)
    } else {
        match names {
            None => Err(WorktreeError::BackendError),
            Some(ns) => match create_plan(ns, workdir, name) {
                Err(e) => Err(e),
                Ok(p) => if taken {
                    Err(WorktreeError::PathCollision)
                } else if !added {
                    Err(WorktreeError::BackendError)
                } else {
                    Ok(p)
                },
            },
        }
    }
}

/// Creating a valid name that is already registered fails with
/// `NameCollision`, whatever the filesystem holds and the backend would do.
pub proof fn law_registered_name_collides(
    names: Seq<Seq<char>>,
    workdir: Seq<char>,
    name: Seq<char>,
    taken: bool,
    added: bool,
)
    requires
        is_valid_name(name),
        names.contains(name),
    ensures
        create_outcome(Some(names), workdir, name, taken, added) == Err::<Seq<char>, WorktreeError>(
            WorktreeError::NameCollision,
        ),
{
}

/// A create succeeds exactly when the name is valid and not registered, the
/// working directory has a parent and a name, nothing exists at the target
/// and the backend adds the worktree; the worktree is then at its derived
/// path.
pub proof fn law_create_succeeds(
    names: Option<Seq<Seq<char>>>,
    workdir: Seq<char>,
    name: Seq<char>,
    taken: bool,
    added: bool,
)
    ensures
        (create_outcome(names, workdir, name, taken, added) is Ok) == (is_valid_name(name)
            && names is Some && !names->0.contains(name) && worktree_path(workdir, name) is Some
            && !taken && added),
        create_outcome(names, workdir, name, taken, added) matches Ok(p) ==> worktree_path(
            workdir,
            name,
        ) == Some(p),
{
}

/// The listing of a repository from the names it registers and the working
/// directory that each resolved to (`None` where one did not resolve): one
/// entry per name, in order, or `BackendError` where any did not resolve.
pub fn assemble(names: &Vec<String>, paths: Vec<Option<String>>) -> (r: Result<
    Vec<WorktreeDto>,
    WorktreeError,
>)
    requires
        paths@.len() == names@.len(),
    ensures
        (r is Ok) == (forall|j: int| 0 <= j < paths@.len() ==> (#[trigger] paths@[j]) is Some),
        r matches Err(e) ==> e == WorktreeError::BackendError,
        r matches Ok(v) ==> v@.len() == names@.len() && forall|j: int|
            0 <= j < v@.len() ==> (#[trigger] v@[j]).name@ == names@[j]@ && paths@[j] == Some(
                v@[j].path,
            ),
{
    let mut out: Vec<WorktreeDto> = Vec::new();
    let mut i: usize = 0;
    while i < names.len()
        invariant
            i <= names@.len() == paths@.len(),
            out@.len() == i,
            forall|j: int| 0 <= j < i ==> (#[trigger] paths@[j]) is Some,
            forall|j: int|
                0 <= j < i ==> (#[trigger] out@[j]).name@ == names@[j]@ && paths@[j] == Some(
                    out@[j].path,
                ),
        decreases names@.len() - i,
    {
        match &paths[i] {
            Some(p) => {
                out.push(WorktreeDto { name: names[i].clone(), path: p.clone() });
            },
            None => return Err(WorktreeError::BackendError),
        }
        i = i + 1;
    }
    Ok(out)
}

/// The step of a create after the filesystem check: `PathCollision` where
/// something exists at the target path.
pub fn check_target(path: String, taken: bool) -> (r: Result<String, WorktreeError>)
    ensures
        taken ==> r == Err::<String, WorktreeError>(WorktreeError::PathCollision),
        !taken ==> (r matches Ok(p) && p@ == path@),
{
    if taken {
        Err(WorktreeError::PathCollision)
    } else {
        Ok(path)
    }
}

/// The last step of a create: the new worktree where the backend added it,
/// `BackendError` where it did not.
pub fn added_worktree(name: &str, path: String, added: bool) -> (r: Result<
    WorktreeDto,
    WorktreeError,
>)
    ensures
        added ==> (r matches Ok(w) && w.name@ == name@ && w.path@ == path@),
        !added ==> r == Err::<WorktreeDto, WorktreeError>(WorktreeError::BackendError),
{
    if added {
        Ok(WorktreeDto { name: String::from_str(name), path })
    } else {
        Err(WorktreeError::BackendError)
    }
}

/// The first step of a delete, from the working directory that the worktree
/// resolved to and whether it is still present: the directory to remove, or
/// `None` where it is gone already and only pruning is left.
pub fn resolve_removal(path: Option<String>, present: bool) -> (r: Result<
    Option<String>,
    WorktreeError,
>)
    ensures
        path is None ==> r == Err::<Option<String>, WorktreeError>(WorktreeError::BackendError),
        path matches Some(p) ==> (r matches Ok(o) && (present ==> (o matches Some(q) && q@ == p@))
            && (!present ==> o is None)),
{
    match path {
        None => Err(WorktreeError::BackendError),
        Some(p) => if present {
            Ok(Some(p))
        } else {
            Ok(None)
        },
    }
}

/// The last step of a delete: `PartialDeleteOrphanedMetadata` where the
/// administrative entry could not be pruned after its directory was removed.
pub fn prune_result(pruned: bool) -> (r: Result<(), WorktreeError>)
    ensures
        pruned ==> r == Ok::<(), WorktreeError>(()),
        !pruned ==> r == Err::<(), WorktreeError>(WorktreeError::PartialDeleteOrphanedMetadata),
{
    if pruned {
        Ok(())
    } else {
        Err(WorktreeError::PartialDeleteOrphanedMetadata)
    }
}

/// The working directory of an opened repository: `None` for a bare
/// repository, `Some(None)` for one whose path is not UTF-8.
pub fn handle_outcome(workdir: Option<Option<String>>) -> (r: Result<String, RepositoryError>)
    ensures
        workdir is None ==> r == Err::<String, RepositoryError>(RepositoryError::NoWorkingDirectory),
        workdir == Some(None::<String>) ==> r == Err::<String, RepositoryError>(
            RepositoryError::InvalidPath,
        ),
        workdir matches Some(Some(w)) ==> (r matches Ok(x) && x@ == w@),
{
    match workdir {
        None => Err(RepositoryError::NoWorkingDirectory),
        Some(None) => Err(RepositoryError::InvalidPath),
        Some(Some(w)) => Ok(w),
    }
}

} // verus!
