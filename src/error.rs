//! The error type of the library.

use vstd::prelude::*;

verus! {

/// What can go wrong in the library's operations. Every variant carries its
/// details as plain values, so callers can branch on the kind.
#[derive(Debug, Clone)]
pub enum Error {
    /// A version-control query failed.
    Git { message: String },
    /// The working directory is not inside a repository.
    NotInGitRepository,
    /// The hosting service's companion command-line tool is not installed.
    ProviderCliNotFound { provider: String, cli_name: String, install_url: String },
    /// The user is not authenticated with the hosting service.
    ProviderAuthRequired { provider: String, auth_command: String },
    /// No hosting service could be recognised in a remote URL.
    ProviderDetectionFailed { remote_url: String },
    /// A remote URL has neither the scheme shape nor the `user@host:path` shape.
    ExtractionFailed { remote_url: String },
    /// A provider name other than the two known ones.
    UnknownProvider { provider: String },
    /// A provider operation failed, or is not implemented.
    ProviderOperationFailed { message: String },
    /// The branch stack is not valid.
    InvalidStack { message: String },
    /// A branch of the stack holds a merge commit.
    MergeCommitInStack { branch: String },
    /// There is nothing between the current branch and the base branch.
    EmptyStack { current_branch: String, base_branch: String },
    /// A branch does not exist.
    BranchNotFound { branch: String },
    /// The metadata store failed.
    Metadata { message: String },
    /// No metadata has been stored yet.
    MetadataNotFound,
    /// The stored metadata has another format version.
    UnsupportedMetadataVersion { version: String, supported_version: String },
    /// The configuration is not usable.
    Config { message: String },
    /// The repository has not been initialised.
    NotInitialized,
    /// The repository has already been initialised.
    AlreadyInitialized { path: String },
    /// The working tree has uncommitted changes.
    UncommittedChanges,
    /// A rebase is in progress.
    RebaseInProgress,
    /// A review id that does not denote a review number.
    InvalidReviewId { id: String },
    /// No review exists under the given id or for the given branch.
    ReviewNotFound { branch: String },
    /// A JSON document could not be read.
    JsonParse { message: String },
    /// A YAML document could not be read.
    YamlParse { message: String },
    /// A TOML document could not be read.
    TomlParse { message: String },
    /// An input or output operation failed.
    Io { message: String },
    /// An external command exited unsuccessfully.
    CommandFailed { command: String, exit_code: i32, stderr: String },
    /// Anything else.
    Other(String),
}

impl Error {
    /// A version-control error with the given message.
    pub fn git(message: &str) -> (r: Error)
        ensures
            r matches Error::Git { message: m } && m@ == message@,
    {
        Error::Git { message: String::from_str(message) }
    }

    /// A metadata error with the given message.
    pub fn metadata(message: &str) -> (r: Error)
        ensures
            r matches Error::Metadata { message: m } && m@ == message@,
    {
        Error::Metadata { message: String::from_str(message) }
    }

    /// A configuration error with the given message.
    pub fn config(message: &str) -> (r: Error)
        ensures
            r matches Error::Config { message: m } && m@ == message@,
    {
        Error::Config { message: String::from_str(message) }
    }

    /// A failed provider operation with the given message.
    pub fn provider_op(message: &str) -> (r: Error)
        ensures
            r matches Error::ProviderOperationFailed { message: m } && m@ == message@,
    {
        Error::ProviderOperationFailed { message: String::from_str(message) }
    }

    /// An invalid-stack error with the given message.
    pub fn invalid_stack(message: &str) -> (r: Error)
        ensures
            r matches Error::InvalidStack { message: m } && m@ == message@,
    {
        Error::InvalidStack { message: String::from_str(message) }
    }

    /// Any other error, with the given message.
    pub fn other(message: &str) -> (r: Error)
        ensures
            r matches Error::Other(m) && m@ == message@,
    {
        Error::Other(String::from_str(message))
    }
}

} // verus!
