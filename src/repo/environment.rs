//! Environment checks before an operation: inside a repository, initialised,
//! a clean working tree, no rebase under way, and the provider's companion
//! tool installed and logged in. The caller gathers the facts; these
//! functions decide, in the order the checks are made.

use crate::error::Error;
use crate::providers::{CliProbe, Provider};
use vstd::prelude::*;

verus! {

/// `name` inside directory `dir`, as a path joins them.
pub open spec fn joined(dir: Seq<char>, name: Seq<char>) -> Seq<char> {
    if dir.len() == 0 {
        name
    } else if dir.last() == '/' {
        dir + name
    } else {
        dir + "/"@ + name
    }
}

/// `name` inside directory `dir`.
pub fn join_path(dir: &str, name: &str) -> (r: String)
    ensures
        r@ == joined(dir@, name@),
{
    let n = dir.unicode_len();
    if n == 0 {
        return String::from_str(name);
    }
    let mut s = String::from_str(dir);
    if dir.get_char(n - 1) != '/' {
        s.append("/");
    }
    s.append(name);
    s
}

/// The tool's metadata directory inside the git directory.
pub fn get_basalt_dir(git_dir: &str) -> (r: String)
    ensures
        r@ == joined(git_dir@, "basalt"@),
{
    join_path(git_dir, "basalt")
}

/// The repository is initialised, or the error that says it is not.
pub fn require_initialized(initialized: bool) -> (r: Result<(), Error>)
    ensures
        initialized ==> r is Ok,
        !initialized ==> r == Err::<(), Error>(Error::NotInitialized),
{
    if !initialized {
        return Err(Error::NotInitialized);
    }
    Ok(())
}

/// The working tree is clean, or the error that it has changes.
pub fn require_clean_working_directory(has_uncommitted_changes: bool) -> (r: Result<(), Error>)
    ensures
        !has_uncommitted_changes ==> r is Ok,
        has_uncommitted_changes ==> r == Err::<(), Error>(Error::UncommittedChanges),
{
    if has_uncommitted_changes {
        return Err(Error::UncommittedChanges);
    }
    Ok(())
}

/// No rebase is under way, or the error that one is.
pub fn require_no_rebase_in_progress(rebase_in_progress: bool) -> (r: Result<(), Error>)
    ensures
        !rebase_in_progress ==> r is Ok,
        rebase_in_progress ==> r == Err::<(), Error>(Error::RebaseInProgress),
{
    if rebase_in_progress {
        return Err(Error::RebaseInProgress);
    }
    Ok(())
}

/// The provider's companion tool is installed and then logged in, from what
/// `<cli> --version` and `<cli> auth status` showed; the first failing check
/// gives the error.
pub fn check_provider_prerequisites(
    provider: &dyn Provider,
    version_probe: &CliProbe,
    auth_probe: &CliProbe,
) -> (r: Result<(), Error>)
    ensures
        r is Ok <==> provider.cli_ok(version_probe) && provider.logged_in(auth_probe),
        !provider.cli_ok(version_probe) ==> r matches Err(Error::ProviderCliNotFound { .. }),
        provider.cli_ok(version_probe) && !provider.logged_in(auth_probe) ==> (r matches Err(e)
            && (e is ProviderCliNotFound || e is CommandFailed || e is ProviderAuthRequired)),
{
    provider.check_cli_available(version_probe)?;
    provider.check_authentication(auth_probe)?;
    Ok(())
}

/// Inside a repository, and initialised.
pub fn check_basic_environment(in_repository: bool, initialized: bool) -> (r: Result<(), Error>)
    ensures
        !in_repository ==> r == Err::<(), Error>(Error::NotInGitRepository),
        in_repository && !initialized ==> r == Err::<(), Error>(Error::NotInitialized),
        in_repository && initialized ==> r is Ok,
{
    if !in_repository {
        return Err(Error::NotInGitRepository);
    }
    require_initialized(initialized)
}

/// Everything a stack operation needs: the basic checks, a clean working
/// tree, and no rebase under way.
pub fn check_stack_operation_environment(
    in_repository: bool,
    initialized: bool,
    has_uncommitted_changes: bool,
    rebase_in_progress: bool,
) -> (r: Result<(), Error>)
    ensures
        !in_repository ==> r == Err::<(), Error>(Error::NotInGitRepository),
        in_repository && !initialized ==> r == Err::<(), Error>(Error::NotInitialized),
        in_repository && initialized && has_uncommitted_changes ==> r == Err::<(), Error>(
            Error::UncommittedChanges,
        ),
        in_repository && initialized && !has_uncommitted_changes && rebase_in_progress ==> r
            == Err::<(), Error>(Error::RebaseInProgress),
        in_repository && initialized && !has_uncommitted_changes && !rebase_in_progress ==> r is Ok,
{
    check_basic_environment(in_repository, initialized)?;
    require_clean_working_directory(has_uncommitted_changes)?;
    require_no_rebase_in_progress(rebase_in_progress)?;
    Ok(())
}

} // verus!
