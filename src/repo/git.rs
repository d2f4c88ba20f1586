//! Decisions on what version control reports: the current branch, the
//! upstream of a branch, the default branch, the working directory, and which
//! remote to read. The caller queries the repository.

use crate::error::Error;
use crate::text::copy_string;
use crate::text::{occurs_at_exec, str_eq};
use vstd::prelude::*;

verus! {

/// What the repository's HEAD is.
#[derive(Debug, Clone)]
pub enum HeadInfo {
    /// HEAD could not be read; the reason.
    Unreadable(String),
    /// HEAD is detached.
    Detached,
    /// HEAD does not point to a branch.
    NotABranch,
    /// The branch name is not valid UTF-8.
    InvalidName,
    /// HEAD points to this branch, by its short name.
    Branch(String),
}

/// The names among `names` that are valid UTF-8, in their order.
pub open spec fn readable_names(names: Seq<Option<String>>) -> Seq<String>
    decreases names.len(),
{
    if names.len() == 0 {
        Seq::empty()
    } else {
        let rest = readable_names(names.drop_last());
        match names.last() {
            Some(n) => rest.push(n),
            None => rest,
        }
    }
}

/// The remote names, leaving out those that are not valid UTF-8 (given as
/// `None`).
pub fn list_remotes(names: Vec<Option<String>>) -> (r: Vec<String>)
    ensures
        r@ == readable_names(names@),
{
    let mut out: Vec<String> = Vec::new();
    let mut i: usize = 0;
    while i < names.len()
        invariant
            i <= names@.len(),
            out@ == readable_names(names@.subrange(0, i as int)),
        decreases names@.len() - i,
    {
        assert(names@.subrange(0, i + 1).drop_last() =~= names@.subrange(0, i as int));
        assert(names@.subrange(0, i + 1).last() == names@[i as int]);
        match &names[i] {
            Some(n) => out.push(copy_string(n)),
            None => {},
        }
        i = i + 1;
    }
    assert(names@.subrange(0, i as int) =~= names@);
    out
}

/// A version-control error whose message is `m`.
pub open spec fn is_git_error(r: Error, m: Seq<char>) -> bool {
    r matches Error::Git { message } && message@ == m
}

/// The current branch, or why there is none.
pub fn get_current_branch(head: HeadInfo) -> (r: Result<String, Error>)
    ensures
        match head {
            HeadInfo::Unreadable(m) => r matches Err(e) && is_git_error(
                e,
                "Failed to get HEAD reference: "@ + m@,
            ),
            HeadInfo::Detached => r matches Err(e) && is_git_error(
                e,
                "Detached HEAD state - not on a branch"@,
            ),
            HeadInfo::NotABranch => r matches Err(e) && is_git_error(
                e,
                "HEAD is not pointing to a branch"@,
            ),
            HeadInfo::InvalidName => r matches Err(e) && is_git_error(
                e,
                "Branch name is not valid UTF-8"@,
            ),
            HeadInfo::Branch(b) => if b@.len() == 0 {
                r matches Err(e) && is_git_error(e, "Empty branch name"@)
            } else {
                r == Ok::<String, Error>(b)
            },
        },
{
    match head {
        HeadInfo::Unreadable(m) => {
            let mut message = String::from_str("Failed to get HEAD reference: ");
            message.append(m.as_str());
            Err(Error::Git { message })
        },
        HeadInfo::Detached => Err(Error::git("Detached HEAD state - not on a branch")),
        HeadInfo::NotABranch => Err(Error::git("HEAD is not pointing to a branch")),
        HeadInfo::InvalidName => Err(Error::git("Branch name is not valid UTF-8")),
        HeadInfo::Branch(b) => {
            if b.as_str().unicode_len() == 0 {
                Err(Error::git("Empty branch name"))
            } else {
                Ok(b)
            }
        },
    }
}

/// The message that branch `b` does not exist.
pub open spec fn branch_missing_message(b: Seq<char>) -> Seq<char> {
    "Branch '"@ + b + "' not found"@
}

/// The message that branch `b` has no upstream.
pub open spec fn no_upstream_message(b: Seq<char>) -> Seq<char> {
    "Branch '"@ + b + "' has no upstream configured"@
}

/// The message that branch `b`'s upstream is not a branch reference.
pub open spec fn bad_upstream_message(b: Seq<char>) -> Seq<char> {
    "Invalid upstream ref format for branch '"@ + b + "'"@
}

/// `prefix + b + suffix` as a message.
fn quoted(prefix: &str, b: &str, suffix: &str) -> (r: String)
    ensures
        r@ == prefix@ + b@ + suffix@,
{
    let mut s = String::from_str(prefix);
    s.append(b);
    s.append(suffix);
    s
}

/// Whether a branch has an upstream, given whether it exists and whether its
/// `branch.<name>.remote` is set.
pub fn has_upstream(branch_name: &str, branch_found: bool, remote_configured: bool) -> (r: Result<
    bool,
    Error,
>)
    ensures
        !branch_found ==> (r matches Err(e) && is_git_error(e, branch_missing_message(branch_name@))),
        branch_found ==> r == Ok::<bool, Error>(remote_configured),
{
    if !branch_found {
        return Err(Error::Git { message: quoted("Branch '", branch_name, "' not found") });
    }
    Ok(remote_configured)
}

/// The upstream of a branch as `remote/branch`, from its configured remote
/// and merge reference.
pub fn get_upstream(
    branch_name: &str,
    branch_found: bool,
    remote: Option<String>,
    merge_ref: Option<String>,
) -> (r: Result<String, Error>)
    ensures
        !branch_found ==> (r matches Err(e) && is_git_error(e, branch_missing_message(branch_name@))),
        branch_found && (remote is None || merge_ref is None) ==> (r matches Err(e)
            && is_git_error(e, no_upstream_message(branch_name@))),
        branch_found && remote is Some && merge_ref is Some ==> {
            let m = merge_ref->0@;
            let p = "refs/heads/"@;
            if p.len() <= m.len() && m.subrange(0, p.len() as int) == p {
                r matches Ok(u) && u@ == remote->0@ + "/"@ + m.subrange(p.len() as int, m.len() as int)
            } else {
                r matches Err(e) && is_git_error(e, bad_upstream_message(branch_name@))
            }
        },
{
    if !branch_found {
        return Err(Error::Git { message: quoted("Branch '", branch_name, "' not found") });
    }
    match (remote, merge_ref) {
        (Some(remote), Some(merge_ref)) => {
            proof {
                reveal_strlit("refs/heads/");
            }
            let m = merge_ref.as_str();
            let n = m.unicode_len();
            if n >= 11 && occurs_at_exec(m, "refs/heads/", 0) {
                let mut u = remote;
                u.append("/");
                u.append(m.substring_char(11, n));
                Ok(u)
            } else {
                Err(
                    Error::Git {
                        message: quoted("Invalid upstream ref format for branch '", branch_name, "'"),
                    },
                )
            }
        },
        _ => Err(
            Error::Git {
                message: quoted("Branch '", branch_name, "' has no upstream configured"),
            },
        ),
    }
}

/// The working directory, or the error that the repository has none.
pub fn get_repo_root(workdir: Option<String>) -> (r: Result<String, Error>)
    ensures
        match workdir {
            Some(w) => r == Ok::<String, Error>(w),
            None => r matches Err(e) && is_git_error(
                e,
                "Repository has no working directory (bare repo?)"@,
            ),
        },
{
    match workdir {
        Some(w) => Ok(w),
        None => Err(Error::git("Repository has no working directory (bare repo?)")),
    }
}

/// A rebase is in progress when either of its state directories exists.
pub fn is_rebase_in_progress(rebase_merge_exists: bool, rebase_apply_exists: bool) -> (r: bool)
    ensures
        r == (rebase_merge_exists || rebase_apply_exists),
{
    rebase_merge_exists || rebase_apply_exists
}

/// The default branch, from what the repository shows: the target of
/// `refs/remotes/origin/HEAD`, else `main` or `master` as a local branch,
/// else as a branch of `origin`, else `main`.
pub fn detect_default_branch(
    origin_head_target: Option<&str>,
    local_main: bool,
    local_master: bool,
    remote_main: bool,
    remote_master: bool,
) -> (r: String)
    ensures
        ({
            let p = "refs/remotes/origin/"@;
            if origin_head_target matches Some(t) && p.len() <= t@.len() && t@.subrange(
                0,
                p.len() as int,
            ) == p {
                r@ == origin_head_target->0@.subrange(p.len() as int, origin_head_target->0@.len() as int)
            } else if local_main {
                r@ == "main"@
            } else if local_master {
                r@ == "master"@
            } else if remote_main {
                r@ == "main"@
            } else if remote_master {
                r@ == "master"@
            } else {
                r@ == "main"@
            }
        }),
{
    proof {
        reveal_strlit("refs/remotes/origin/");
    }
    match origin_head_target {
        Some(t) => {
            let n = t.unicode_len();
            if n >= 20 && occurs_at_exec(t, "refs/remotes/origin/", 0) {
                return String::from_str(t.substring_char(20, n));
            }
        },
        None => {},
    }
    if local_main {
        String::from_str("main")
    } else if local_master {
        String::from_str("master")
    } else if remote_main {
        String::from_str("main")
    } else if remote_master {
        String::from_str("master")
    } else {
        String::from_str("main")
    }
}

/// The remote to read the provider from: `origin` when there is one, else
/// the first; with no remote at all, the error that says how to add one.
pub fn pick_remote(remotes: &Vec<String>) -> (r: Result<String, Error>)
    ensures
        remotes@.len() == 0 ==> (r matches Err(e) && e is Config),
        remotes@.len() > 0 && (exists|i: int| 0 <= i < remotes@.len() && (#[trigger] remotes@[i])@
            == "origin"@) ==> (r matches Ok(n) && n@ == "origin"@),
        remotes@.len() > 0 && !(exists|i: int| 0 <= i < remotes@.len() && (#[trigger] remotes@[i])@
            == "origin"@) ==> r == Ok::<String, Error>(remotes@[0]),
{
    if remotes.len() == 0 {
        return Err(
            Error::config(
                "No git remotes found. Add a remote first:\n  git remote add origin <url>\n\nOr specify a provider explicitly:\n  bt init --provider <gitlab|github>",
            ),
        );
    }
    let mut i: usize = 0;
    while i < remotes.len()
        invariant
            i <= remotes@.len(),
            forall|j: int| 0 <= j < i ==> (#[trigger] remotes@[j])@ != "origin"@,
        decreases remotes@.len() - i,
    {
        if str_eq(remotes[i].as_str(), "origin") {
            return Ok(String::from_str("origin"));
        }
        i = i + 1;
    }
    Ok(copy_string(&remotes[0]))
}

} // verus!
