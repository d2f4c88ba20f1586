//! The decisions of initialising a repository: which provider and which base
//! branch. The caller reads the remote and the default branch.

use crate::error::Error;
use crate::providers::{kind_named, kind_of_remote, lower_of, ProviderType};
use vstd::prelude::*;

verus! {

/// The provider to record: the one named explicitly, else the one the
/// remote's URL points to; with neither, the error that says how to give one.
pub fn detect_provider(provider_override: Option<String>, remote_url: Option<String>) -> (r: Result<
    ProviderType,
    Error,
>)
    ensures
        match provider_override {
            Some(name) => match kind_named(lower_of(name@)) {
                Some(k) => r == Ok::<ProviderType, Error>(k),
                None => r matches Err(Error::UnknownProvider { provider }) && provider@ == name@,
            },
            None => match remote_url {
                Some(url) => match kind_of_remote(url@) {
                    Some(k) => r == Ok::<ProviderType, Error>(k),
                    None => r matches Err(Error::ProviderDetectionFailed { remote_url: u })
                        && u@ == url@,
                },
                None => r matches Err(e) && e is Config,
            },
        },
{
    match provider_override {
        Some(name) => ProviderType::from_str(name.as_str()),
        None => match remote_url {
            Some(url) => ProviderType::from_remote_url(url.as_str()),
            None => Err(
                Error::config(
                    "No git remotes found. Add a remote first:\n  git remote add origin <url>\n\nOr specify a provider explicitly:\n  bt init --provider <gitlab|github>",
                ),
            ),
        },
    }
}

/// The base branch to record: the one named explicitly, else the detected
/// default branch.
pub fn detect_base_branch(base_branch_override: Option<String>, detected: String) -> (r: String)
    ensures
        match base_branch_override {
            Some(b) => r == b,
            None => r == detected,
        },
{
    match base_branch_override {
        Some(b) => b,
        None => detected,
    }
}

} // verus!
