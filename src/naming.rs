//! Where the worktrees of a repository live:
//! `<parent of the working directory>/<repository name>.worktrees/<worktree name>`.

use vstd::prelude::*;
use vstd::string::*;

verus! {

/// The path separator.
pub open spec fn is_separator(c: char) -> bool {
    c == '/' || c == '\\'
}

/// A path with its trailing `/` characters removed.
pub open spec fn trimmed(s: Seq<char>) -> Seq<char>
    decreases s.len(),
{
    if s.len() > 0 && s.last() == '/' {
        trimmed(s.drop_last())
    } else {
        s
    }
}

/// Index of the last `/` in `s`, or -1 when there is none.
pub open spec fn last_slash(s: Seq<char>) -> int
    decreases s.len(),
{
    if s.len() == 0 {
        -1
    } else if s.last() == '/' {
        s.len() - 1
    } else {
        last_slash(s.drop_last())
    }
}

/// The directory that holds a repository's worktrees is named after the
/// repository with this suffix.
pub open spec fn worktrees_suffix() -> Seq<char> {
    seq!['.', 'w', 'o', 'r', 'k', 't', 'r', 'e', 'e', 's']
}

/// The parent directory of a working directory, when it has one and a final
/// component that is not empty.
pub open spec fn parent_dir(workdir: Seq<char>) -> Option<Seq<char>> {
    let t = trimmed(workdir);
    let k = last_slash(t);
    if k < 0 || k + 1 >= t.len() {
        None
    } else {
        Some(t.subrange(0, k))
    }
}

/// The final component of a working directory (the repository's name).
pub open spec fn repo_name(workdir: Seq<char>) -> Option<Seq<char>> {
    let t = trimmed(workdir);
    let k = last_slash(t);
    if k < 0 || k + 1 >= t.len() {
        None
    } else {
        Some(t.subrange(k + 1, t.len() as int))
    }
}

/// Where the worktree `name` of the repository whose working directory is
/// `workdir` lives.
pub open spec fn worktree_path(workdir: Seq<char>, name: Seq<char>) -> Option<Seq<char>> {
    match (parent_dir(workdir), repo_name(workdir)) {
        (Some(p), Some(r)) => Some(p + seq!['/'] + r + worktrees_suffix() + seq!['/'] + name),
        _ => None,
    }
}

proof fn lemma_prefix_drop_last(s: Seq<char>, n: int)
    requires
        0 < n <= s.len(),
    ensures
        s.subrange(0, n).drop_last() == s.subrange(0, n - 1),
        s.subrange(0, n).last() == s[n - 1],
{
    assert(s.subrange(0, n).drop_last() =~= s.subrange(0, n - 1));
}

/// Splits a working directory into its parent directory and its final
/// component; `None` when it has no parent or no final component.
pub fn split_workdir(workdir: &str) -> (r: Option<(String, String)>)
    ensures
        r matches Some((p, n)) ==> parent_dir(workdir@) == Some(p@) && repo_name(workdir@) == Some(n@),
        r is None ==> parent_dir(workdir@) is None && repo_name(workdir@) is None,
{
    let w = workdir;
    let len = w.unicode_len();
    let mut end: usize = len;
    assert(w@.subrange(0, len as int) =~= w@);
    while end > 0 && w.get_char(end - 1) == '/'
        invariant
            end <= len == w@.len(),
            trimmed(w@) == trimmed(w@.subrange(0, end as int)),
        decreases end,
    {
        proof {
            lemma_prefix_drop_last(w@, end as int);
        }
        end = end - 1;
    }
    let ghost t = w@.subrange(0, end as int);
    proof {
        if end > 0 {
            lemma_prefix_drop_last(w@, end as int);
        }
        assert(trimmed(t) == t);
    }
    let mut i: usize = end;
    assert(t.subrange(0, end as int) =~= t);
    while i > 0 && w.get_char(i - 1) != '/'
        invariant
            i <= end <= len == w@.len(),
            t == w@.subrange(0, end as int),
            last_slash(t) == last_slash(t.subrange(0, i as int)),
        decreases i,
    {
        proof {
            lemma_prefix_drop_last(t, i as int);
        }
        i = i - 1;
    }
    proof {
        if i > 0 {
            lemma_prefix_drop_last(t, i as int);
        }
    }
    if i == 0 || i >= end {
        return None;
    }
    let parent = w.substring_char(0, i - 1);
    let base = w.substring_char(i, end);
    proof {
        assert(parent@ =~= t.subrange(0, i - 1));
        assert(base@ =~= t.subrange(i as int, t.len() as int));
    }
    Some((String::from_str(parent), String::from_str(base)))
}

/// The final component of a repository path: the repository's name.
pub fn repository_name(path: &str) -> (r: Option<String>)
    ensures
        r matches Some(n) ==> repo_name(path@) == Some(n@),
        r is None ==> repo_name(path@) is None,
{
    match split_workdir(path) {
        Some((_, n)) => Some(n),
        None => None,
    }
}

/// Derives the path of worktree `name` from the repository's working
/// directory; `None` when the working directory has no parent or no name.
pub fn derive_path(workdir: &str, name: &str) -> (r: Option<String>)
    ensures
        r matches Some(p) ==> worktree_path(workdir@, name@) == Some(p@),
        r is None ==> worktree_path(workdir@, name@) is None,
{
    match split_workdir(workdir) {
        None => None,
        Some((parent, base)) => {
            let mut r = parent;
            r.append("/");
            r.append(base.as_str());
            r.append(".worktrees");
            r.append("/");
            r.append(name);
            proof {
                reveal_strlit("/");
                reveal_strlit(".worktrees");
                assert(".worktrees"@ =~= worktrees_suffix());
            }
            Some(r)
        },
    }
}

} // verus!
