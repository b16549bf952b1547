//! A repository held in memory: its administrative worktree entries and the
//! directories present on its filesystem, with switches that make removal or
//! pruning fail. Its create and delete take the same verified steps as
//! `RepositoryHandle` (`plan_create`, `check_target`, `added_worktree`,
//! `resolve_removal`, `prune_result`), and its create is stated by the same
//! `create_outcome`; the laws below hold of this state.

use crate::naming::worktree_path;
use crate::worktree::{
    added_worktree, check_target, contains_name, create_outcome, create_plan, created_path,
    distinct, plan_create, prune_result, resolve_removal, same_text, texts, WorktreeDto,
    WorktreeError,
};
use vstd::prelude::*;
use vstd::string::*;

verus! {

/// The directories named in `dirs`.
pub open spec fn dir_set(dirs: Seq<String>) -> Set<Seq<char>> {
    Set::new(|p: Seq<char>| exists|i: int| 0 <= i < dirs.len() && (#[trigger] dirs[i])@ == p)
}

/// The index of the entry named `name`.
pub open spec fn position(names: Seq<Seq<char>>, name: Seq<char>) -> int {
    choose|i: int| 0 <= i < names.len() && names[i] == name
}

proof fn lemma_dir_set_push(dirs: Seq<String>, d: String)
    ensures
        dir_set(dirs.push(d)) == dir_set(dirs).insert(d@),
{
    let after = dirs.push(d);
    assert forall|q: Seq<char>| #[trigger] dir_set(after).contains(q) <==> dir_set(dirs).insert(d@).contains(q) by {
        if dir_set(after).contains(q) {
            let k = choose|k: int| 0 <= k < after.len() && (#[trigger] after[k])@ == q;
            if k < dirs.len() {
                assert(dirs[k] == after[k]);
            }
        }
        if dir_set(dirs).contains(q) {
            let k = choose|k: int| 0 <= k < dirs.len() && (#[trigger] dirs[k])@ == q;
            assert(dirs[k] == after[k]);
        }
        if q == d@ {
            assert(after[dirs.len() as int]@ == q);
        }
    }
    assert(dir_set(after) =~= dir_set(dirs).insert(d@));
}

pub struct WorktreeStore {
    workdir: String,
    entries: Vec<WorktreeDto>,
    dirs: Vec<String>,
    fail_removal: bool,
    fail_prune: bool,
}

fn has_dir(dirs: &Vec<String>, p: &str) -> (r: bool)
    ensures
        r == dir_set(dirs@).contains(p@),
{
    let mut i: usize = 0;
    while i < dirs.len()
        invariant
            i <= dirs@.len(),
            forall|j: int| 0 <= j < i ==> dirs@[j]@ != p@,
        decreases dirs@.len() - i,
    {
        if same_text(dirs[i].as_str(), p) {
            return true;
        }
        i = i + 1;
    }
    false
}

fn without(dirs: &Vec<String>, p: &str) -> (r: Vec<String>)
    ensures
        dir_set(r@) == dir_set(dirs@).remove(p@),
{
    let mut out: Vec<String> = Vec::new();
    let mut i: usize = 0;
    while i < dirs.len()
        invariant
            i <= dirs@.len(),
            forall|q: Seq<char>|
                dir_set(out@).contains(q) <==> (q != p@ && exists|j: int|
                    0 <= j < i && (#[trigger] dirs@[j])@ == q),
        decreases dirs@.len() - i,
    {
        let ghost before = out@;
        if !same_text(dirs[i].as_str(), p) {
            let d = dirs[i].clone();
            out.push(d);
        }
        proof {
            assert forall|q: Seq<char>|
                dir_set(out@).contains(q) <==> (q != p@ && exists|j: int|
                    0 <= j < i + 1 && (#[trigger] dirs@[j])@ == q) by {
                if dir_set(out@).contains(q) {
                    let k = choose|k: int| 0 <= k < out@.len() && (#[trigger] out@[k])@ == q;
                    if k < before.len() {
                        assert(before[k] == out@[k]);
                        assert(dir_set(before).contains(q));
                    } else {
                        assert(dirs@[i as int]@ == q);
                    }
                }
                if q != p@ && exists|j: int| 0 <= j < i + 1 && (#[trigger] dirs@[j])@ == q {
                    let j = choose|j: int| 0 <= j < i + 1 && (#[trigger] dirs@[j])@ == q;
                    if j < i {
                        assert(dir_set(before).contains(q));
                        let k = choose|k: int| 0 <= k < before.len() && (#[trigger] before[k])@ == q;
                        assert(out@[k] == before[k]);
                    } else {
                        assert(out@[out@.len() - 1]@ == q);
                    }
                }
            }
        }
        i = i + 1;
    }
    assert(dir_set(out@) =~= dir_set(dirs@).remove(p@));
    out
}

impl WorktreeStore {
    /// The repository's working directory.
    pub closed spec fn workdir_view(&self) -> Seq<char> {
        self.workdir@
    }

    /// The registered worktrees, as (name, path), in registration order.
    pub closed spec fn listing(&self) -> Seq<(Seq<char>, Seq<char>)> {
        self.entries@.map_values(|w: WorktreeDto| w.view())
    }

    /// Whether removing a working directory fails.
    pub closed spec fn removal_fails(&self) -> bool {
        self.fail_removal
    }

    /// Whether pruning an administrative entry fails.
    pub closed spec fn prune_fails(&self) -> bool {
        self.fail_prune
    }

    /// The directories present on the filesystem.
    pub closed spec fn disk(&self) -> Set<Seq<char>> {
        dir_set(self.dirs@)
    }

    /// The names of the registered worktrees.
    pub open spec fn names(&self) -> Seq<Seq<char>> {
        self.listing().map_values(|e: (Seq<char>, Seq<char>)| e.0)
    }

    /// Worktree names are unique within the repository.
    pub open spec fn wf(&self) -> bool {
        distinct(self.names())
    }

    /// `new` and `old` agree on everything but the registered worktrees and
    /// the directories on disk.
    pub open spec fn same_setup(new: WorktreeStore, old: WorktreeStore) -> bool {
        &&& new.workdir_view() == old.workdir_view()
        &&& new.removal_fails() == old.removal_fails()
        &&& new.prune_fails() == old.prune_fails()
    }

    /// Whether something exists where worktree `name` would be created.
    pub open spec fn target_taken(&self, name: Seq<char>) -> bool {
        match create_plan(self.names(), self.workdir_view(), name) {
            Ok(p) => self.disk().contains(p),
            Err(_) => false,
        }
    }

    /// What `create(name)` returns and does, from state `old` to state `new`.
    pub open spec fn create_post(
        old: WorktreeStore,
        name: Seq<char>,
        r: Result<WorktreeDto, WorktreeError>,
        new: WorktreeStore,
    ) -> bool {
        &&& Self::same_setup(new, old)
        &&& match create_plan(old.names(), old.workdir_view(), name) {
            Err(e) => {
                &&& r == Err::<WorktreeDto, WorktreeError>(e)
                &&& new.listing() == old.listing()
                &&& new.disk() == old.disk()
            },
            Ok(p) => if old.disk().contains(p) {
                &&& r == Err::<WorktreeDto, WorktreeError>(WorktreeError::PathCollision)
                &&& new.listing() == old.listing()
                &&& new.disk() == old.disk()
            } else {
                &&& r matches Ok(w) && w.view() == (name, p)
                &&& new.listing() == old.listing().push((name, p))
                &&& new.disk() == old.disk().insert(p)
            },
        }
    }

    /// What `delete(name)` returns and does, from state `old` to state `new`.
    pub open spec fn delete_post(
        old: WorktreeStore,
        name: Seq<char>,
        r: Result<(), WorktreeError>,
        new: WorktreeStore,
    ) -> bool {
        &&& Self::same_setup(new, old)
        &&& if !old.names().contains(name) {
            &&& r == Err::<(), WorktreeError>(WorktreeError::NotFound)
            &&& new.listing() == old.listing()
            &&& new.disk() == old.disk()
        } else {
            let i = position(old.names(), name);
            let p = old.listing()[i].1;
            if old.disk().contains(p) && old.removal_fails() {
                &&& r == Err::<(), WorktreeError>(WorktreeError::FilesystemRemovalFailed)
                &&& new.listing() == old.listing()
                &&& new.disk() == old.disk()
            } else if old.prune_fails() {
                &&& r == Err::<(), WorktreeError>(WorktreeError::PartialDeleteOrphanedMetadata)
                &&& new.listing() == old.listing()
                &&& new.disk() == old.disk().remove(p)
            } else {
                &&& r == Ok::<(), WorktreeError>(())
                &&& new.listing() == old.listing().remove(i)
                &&& new.disk() == old.disk().remove(p)
            }
        }
    }

    /// A repository with working directory `workdir`, no worktrees and no
    /// directories on disk.
    pub fn new(workdir: &str) -> (r: WorktreeStore)
        ensures
            r.wf(),
            r.workdir_view() == workdir@,
            r.listing() == Seq::<(Seq<char>, Seq<char>)>::empty(),
            r.disk() == Set::<Seq<char>>::empty(),
            !r.removal_fails(),
            !r.prune_fails(),
    {
        let r = WorktreeStore {
            workdir: String::from_str(workdir),
            entries: Vec::new(),
            dirs: Vec::new(),
            fail_removal: false,
            fail_prune: false,
        };
        assert(r.listing() =~= Seq::<(Seq<char>, Seq<char>)>::empty());
        assert(r.disk() =~= Set::<Seq<char>>::empty());
        r
    }

    /// Makes removing working directories fail, or succeed again.
    pub fn set_fail_removal(&mut self, fail: bool)
        ensures
            final(self).workdir_view() == old(self).workdir_view(),
            final(self).removal_fails() == fail,
            final(self).prune_fails() == old(self).prune_fails(),
            final(self).listing() == old(self).listing(),
            final(self).disk() == old(self).disk(),
    {
        self.fail_removal = fail;
    }

    /// Makes pruning administrative entries fail, or succeed again.
    pub fn set_fail_prune(&mut self, fail: bool)
        ensures
            final(self).workdir_view() == old(self).workdir_view(),
            final(self).removal_fails() == old(self).removal_fails(),
            final(self).prune_fails() == fail,
            final(self).listing() == old(self).listing(),
            final(self).disk() == old(self).disk(),
    {
        self.fail_prune = fail;
    }

    /// Puts a directory at `path` that is no worktree, as a user's files would be.
    pub fn add_dir(&mut self, path: &str)
        ensures
            Self::same_setup(*final(self), *old(self)),
            final(self).listing() == old(self).listing(),
            final(self).disk() == old(self).disk().insert(path@),
    {
        let ghost before = self.dirs@;
        let d = String::from_str(path);
        proof {
            lemma_dir_set_push(before, d);
        }
        self.dirs.push(d);
    }

    /// Registers worktree `name` at its derived path and creates its working
    /// directory. Fails on an invalid name, on a name already registered, on a
    /// working directory with no parent, and on a path where something exists.
    pub fn create(&mut self, name: &str) -> (r: Result<WorktreeDto, WorktreeError>)
        requires
            old(self).wf(),
        ensures
            final(self).wf(),
            Self::create_post(*old(self), name@, r, *final(self)),
            created_path(r) == create_outcome(
                Some(old(self).names()),
                old(self).workdir_view(),
                name@,
                old(self).target_taken(name@),
                true,
            ),
    {
        let names = self.name_list();
        let p = match plan_create(&names, self.workdir.as_str(), name) {
            Ok(p) => p,
            Err(e) => return Err(e),
        };
        let taken = has_dir(&self.dirs, p.as_str());
        let p = match check_target(p, taken) {
            Ok(p) => p,
            Err(e) => return Err(e),
        };
        let ghost old_names = self.names();
        let ghost old_listing = self.listing();
        let d = p.clone();
        proof {
            lemma_dir_set_push(self.dirs@, d);
        }
        self.dirs.push(d);
        let ghost pv = p@;
        let w = match added_worktree(name, p, true) {
            Ok(w) => w,
            Err(e) => return Err(e),
        };
        self.entries.push(w.duplicate());
        proof {
            assert(self.listing() =~= old_listing.push((name@, pv)));
            assert(self.names() =~= old_names.push(name@));
            assert forall|i: int, j: int| 0 <= i < j < self.names().len() implies self.names()[i] != self.names()[j] by {
                if j == old_names.len() {
                    assert(old_names[i] == self.names()[i]);
                }
            }
        }
        Ok(w)
    }

    /// Deletes worktree `name`: first its working directory, then its
    /// administrative entry. When the directory is already gone, only the
    /// entry is pruned, which finishes a delete that failed halfway.
    pub fn delete(&mut self, name: &str) -> (r: Result<(), WorktreeError>)
        requires
            old(self).wf(),
        ensures
            final(self).wf(),
            Self::delete_post(*old(self), name@, r, *final(self)),
    {
        let mut i: usize = 0;
        while i < self.entries.len() && !same_text(self.entries[i].name.as_str(), name)
            invariant
                i <= self.entries@.len(),
                forall|j: int| 0 <= j < i ==> self.entries@[j].name@ != name@,
            decreases self.entries@.len() - i,
        {
            i = i + 1;
        }
        if i == self.entries.len() {
            proof {
                if self.names().contains(name@) {
                    let k = choose|k: int| 0 <= k < self.names().len() && self.names()[k] == name@;
                    assert(self.entries@[k].name@ == name@);
                }
            }
            return Err(WorktreeError::NotFound);
        }
        let ghost old_names = self.names();
        let ghost old_listing = self.listing();
        let ghost old_disk = self.disk();
        proof {
            assert(old_names[i as int] == name@);
            let k = position(old_names, name@);
            assert(old_names[k] == name@);
            if k != i {
                if k < i {
                    assert(old_names[k] != old_names[i as int]);
                } else {
                    assert(old_names[i as int] != old_names[k]);
                }
            }
        }
        let p = self.entries[i].path.clone();
        let ghost pv = p@;
        let present = has_dir(&self.dirs, p.as_str());
        let to_remove = match resolve_removal(Some(p), present) {
            Ok(o) => o,
            Err(e) => return Err(e),
        };
        match to_remove {
            Some(q) => {
                if self.fail_removal {
                    return Err(WorktreeError::FilesystemRemovalFailed);
                }
                self.dirs = without(&self.dirs, q.as_str());
            },
            None => {
                assert(old_disk.remove(pv) =~= old_disk);
            },
        }
        let r = prune_result(!self.fail_prune);
        if self.fail_prune {
            return r;
        }
        self.entries.remove(i);
        proof {
            assert(self.listing() =~= old_listing.remove(i as int));
            assert(self.names() =~= old_names.remove(i as int));
            assert forall|a: int, b: int| 0 <= a < b < self.names().len() implies self.names()[a] != self.names()[b] by {
                let a2 = if a < i { a } else { a + 1 };
                let b2 = if b < i { b } else { b + 1 };
                assert(self.names()[a] == old_names[a2]);
                assert(self.names()[b] == old_names[b2]);
            }
        }
        r
    }

    /// The registered worktrees, each with the path of its working directory.
    pub fn list(&self) -> (r: Vec<WorktreeDto>)
        requires
            self.wf(),
        ensures
            r@.map_values(|w: WorktreeDto| w.view()) == self.listing(),
            r@.len() == self.listing().len(),
            forall|i: int, j: int|
                0 <= i < j < r@.len() ==> (#[trigger] r@[i]).name@ != (#[trigger] r@[j]).name@,
    {
        let mut out: Vec<WorktreeDto> = Vec::new();
        let mut i: usize = 0;
        while i < self.entries.len()
            invariant
                i <= self.entries@.len(),
                out@.len() == i,
                forall|j: int| 0 <= j < i ==> (#[trigger] out@[j]).view() == self.entries@[j].view(),
            decreases self.entries@.len() - i,
        {
            out.push(self.entries[i].duplicate());
            i = i + 1;
        }
        assert(out@.map_values(|w: WorktreeDto| w.view()) =~= self.listing());
        assert forall|i: int, j: int| 0 <= i < j < out@.len() implies (#[trigger] out@[i]).name@ != (#[trigger] out@[j]).name@ by {
            assert(self.names()[i] == out@[i].name@);
            assert(self.names()[j] == out@[j].name@);
        }
        out
    }

    /// The names of the registered worktrees.
    fn name_list(&self) -> (r: Vec<String>)
        ensures
            texts(r@) == self.names(),
    {
        let mut out: Vec<String> = Vec::new();
        let mut i: usize = 0;
        while i < self.entries.len()
            invariant
                i <= self.entries@.len(),
                out@.len() == i,
                forall|j: int| 0 <= j < i ==> (#[trigger] out@[j])@ == self.entries@[j].name@,
            decreases self.entries@.len() - i,
        {
            out.push(self.entries[i].name.clone());
            i = i + 1;
        }
        assert(texts(out@) =~= self.names());
        out
    }
}

/// A worktree that was just created is listed under its name, at the path
/// that the naming policy derives for it.
pub proof fn law_created_is_listed(
    s0: WorktreeStore,
    name: Seq<char>,
    r: Result<WorktreeDto, WorktreeError>,
    s1: WorktreeStore,
)
    requires
        s0.wf(),
        WorktreeStore::create_post(s0, name, r, s1),
        r is Ok,
    ensures
        worktree_path(s0.workdir_view(), name) matches Some(p) && s1.listing().contains((name, p)),
{
    let p = worktree_path(s0.workdir_view(), name)->0;
    assert(s1.listing()[s1.listing().len() - 1] == (name, p));
}

/// Creating the same name twice fails the second time with a name collision,
/// and the name is then registered exactly once.
pub proof fn law_create_twice_collides(
    s0: WorktreeStore,
    name: Seq<char>,
    r1: Result<WorktreeDto, WorktreeError>,
    s1: WorktreeStore,
    r2: Result<WorktreeDto, WorktreeError>,
    s2: WorktreeStore,
)
    requires
        s0.wf(),
        WorktreeStore::create_post(s0, name, r1, s1),
        r1 is Ok,
        WorktreeStore::create_post(s1, name, r2, s2),
    ensures
        r2 == Err::<WorktreeDto, WorktreeError>(WorktreeError::NameCollision),
        s2.listing() == s1.listing(),
        exists|i: int|
            0 <= i < s2.names().len() && s2.names()[i] == name && forall|j: int|
                0 <= j < s2.names().len() && #[trigger] s2.names()[j] == name ==> j == i,
{
    let n = s1.names().len() - 1;
    assert(s1.names()[n] == name);
    assert(s1.names().contains(name));
    assert forall|j: int| 0 <= j < s2.names().len() && #[trigger] s2.names()[j] == name implies j == n by {
        if j < n {
            assert(s0.names()[j] == s1.names()[j]);
            assert(s0.names().contains(name));
        }
    }
}

/// Deleting a worktree that was just created, on a repository where removal
/// and pruning work, succeeds, unregisters the name and removes the working
/// directory.
pub proof fn law_delete_after_create(
    s0: WorktreeStore,
    name: Seq<char>,
    r1: Result<WorktreeDto, WorktreeError>,
    s1: WorktreeStore,
    r2: Result<(), WorktreeError>,
    s2: WorktreeStore,
)
    requires
        s0.wf(),
        !s0.removal_fails(),
        !s0.prune_fails(),
        WorktreeStore::create_post(s0, name, r1, s1),
        r1 is Ok,
        WorktreeStore::delete_post(s1, name, r2, s2),
    ensures
        r2 is Ok,
        !s2.names().contains(name),
        r1 matches Ok(w) && !s2.disk().contains(w.path@),
{
    let n = s1.names().len() - 1;
    assert(s1.names()[n] == name);
    assert(s1.names().contains(name));
    let k = position(s1.names(), name);
    assert(k == n) by {
        if k < n {
            assert(s0.names()[k] == s1.names()[k]);
            assert(s0.names().contains(name));
        }
    }
    assert(s2.names() =~= s1.names().remove(n));
    if s2.names().contains(name) {
        let j = choose|j: int| 0 <= j < s2.names().len() && s2.names()[j] == name;
        assert(s0.names()[j] == s1.names()[j]);
        assert(s0.names().contains(name));
    }
}

/// Deleting a name that is not registered fails with `NotFound` and changes
/// nothing.
pub proof fn law_delete_missing(
    s0: WorktreeStore,
    name: Seq<char>,
    r: Result<(), WorktreeError>,
    s1: WorktreeStore,
)
    requires
        !s0.names().contains(name),
        WorktreeStore::delete_post(s0, name, r, s1),
    ensures
        r == Err::<(), WorktreeError>(WorktreeError::NotFound),
        s1.listing() == s0.listing(),
        s1.disk() == s0.disk(),
{
}

/// When removal succeeds and pruning fails, delete reports orphaned metadata
/// and leaves the entry registered with its directory gone; once pruning works
/// again, deleting the same name succeeds and unregisters it, whether or not
/// removal would now fail.
pub proof fn law_retry_after_partial_delete(
    s0: WorktreeStore,
    name: Seq<char>,
    r1: Result<(), WorktreeError>,
    s1: WorktreeStore,
    s1b: WorktreeStore,
    r2: Result<(), WorktreeError>,
    s2: WorktreeStore,
)
    requires
        s0.wf(),
        s0.names().contains(name),
        !s0.removal_fails(),
        s0.prune_fails(),
        WorktreeStore::delete_post(s0, name, r1, s1),
        s1b.workdir_view() == s1.workdir_view(),
        s1b.listing() == s1.listing(),
        s1b.disk() == s1.disk(),
        !s1b.prune_fails(),
        WorktreeStore::delete_post(s1b, name, r2, s2),
    ensures
        r1 == Err::<(), WorktreeError>(WorktreeError::PartialDeleteOrphanedMetadata),
        s1.names().contains(name),
        r2 == Ok::<(), WorktreeError>(()),
        !s2.names().contains(name),
        !s2.disk().contains(s0.listing()[position(s0.names(), name)].1),
{
    assert(s1.names() =~= s0.names());
    assert(s1b.names() =~= s0.names());
    let i = position(s0.names(), name);
    assert(s2.names() =~= s0.names().remove(i));
    if s2.names().contains(name) {
        let j = choose|j: int| 0 <= j < s2.names().len() && s2.names()[j] == name;
        let j2 = if j < i { j } else { j + 1 };
        assert(s0.names()[j2] == name);
        assert(s0.names()[i] == name);
        if j2 < i {
            assert(s0.names()[j2] != s0.names()[i]);
        } else {
            assert(s0.names()[i] != s0.names()[j2]);
        }
    }
}

} // verus!
