//! The GitHub provider, driven through the `gh` companion tool. Its review
//! operations are not implemented yet and say so.

use crate::error::Error;
use crate::providers::{
    auth_status_verdict, cli_probe_verdict, probe_shows_login, CliProbe, CreateReviewParams, Provider,
    ProviderType, Review, UpdateReviewParams,
};
use vstd::prelude::*;

verus! {

/// The GitHub provider.
pub struct GitHubProvider {}

impl GitHubProvider {
    /// A GitHub provider.
    pub fn new() -> (r: GitHubProvider)
        ensures
            r.kind() == ProviderType::GitHub,
    {
        GitHubProvider {  }
    }
}

impl Default for GitHubProvider {
    fn default() -> (r: GitHubProvider)
        ensures
            r.kind() == ProviderType::GitHub,
    {
        GitHubProvider::new()
    }
}

impl Provider for GitHubProvider {
    open spec fn kind(&self) -> ProviderType {
        ProviderType::GitHub
    }

    open spec fn cli_ok(&self, probe: &CliProbe) -> bool {
        probe.launched
    }

    open spec fn logged_in(&self, probe: &CliProbe) -> bool {
        probe_shows_login(ProviderType::GitHub, *probe)
    }

    open spec fn implemented(&self) -> bool {
        false
    }

    fn provider_type(&self) -> (r: ProviderType) {
        ProviderType::GitHub
    }

    fn check_cli_available(&self, probe: &CliProbe) -> (r: Result<(), Error>) {
        cli_probe_verdict(ProviderType::GitHub, probe)
    }

    fn check_authentication(&self, probe: &CliProbe) -> (r: Result<(), Error>) {
        auth_status_verdict(ProviderType::GitHub, probe)
    }

    fn create_review(&mut self, params: CreateReviewParams) -> (r: Result<Review, Error>) {
        Err(Error::provider_op("GitHub PR creation not yet implemented"))
    }

    fn update_review(&mut self, params: UpdateReviewParams) -> (r: Result<Review, Error>) {
        Err(Error::provider_op("GitHub PR update not yet implemented"))
    }

    fn get_review(&mut self, review_id: &str) -> (r: Result<Review, Error>) {
        Err(Error::provider_op("GitHub PR retrieval not yet implemented"))
    }

    fn find_review_for_branch(&self, branch: &str) -> (r: Result<Option<Review>, Error>) {
        Err(Error::provider_op("GitHub PR lookup by branch not yet implemented"))
    }
}

} // verus!
