//! The GitLab provider, driven through the `glab` companion tool. Its review
//! operations are not implemented yet and say so.

use crate::error::Error;
use crate::providers::{
    auth_status_verdict, cli_probe_verdict, probe_shows_login, CliProbe, CreateReviewParams, Provider,
    ProviderType, Review, UpdateReviewParams,
};
use vstd::prelude::*;

verus! {

/// The GitLab provider.
pub struct GitLabProvider {}

impl GitLabProvider {
    /// A GitLab provider.
    pub fn new() -> (r: GitLabProvider)
        ensures
            r.kind() == ProviderType::GitLab,
    {
        GitLabProvider {  }
    }
}

impl Default for GitLabProvider {
    fn default() -> (r: GitLabProvider)
        ensures
            r.kind() == ProviderType::GitLab,
    {
        GitLabProvider::new()
    }
}

impl Provider for GitLabProvider {
    open spec fn kind(&self) -> ProviderType {
        ProviderType::GitLab
    }

    open spec fn cli_ok(&self, probe: &CliProbe) -> bool {
        probe.launched
    }

    open spec fn logged_in(&self, probe: &CliProbe) -> bool {
        probe_shows_login(ProviderType::GitLab, *probe)
    }

    open spec fn implemented(&self) -> bool {
        false
    }

    fn provider_type(&self) -> (r: ProviderType) {
        ProviderType::GitLab
    }

    fn check_cli_available(&self, probe: &CliProbe) -> (r: Result<(), Error>) {
        cli_probe_verdict(ProviderType::GitLab, probe)
    }

    fn check_authentication(&self, probe: &CliProbe) -> (r: Result<(), Error>) {
        auth_status_verdict(ProviderType::GitLab, probe)
    }

    fn create_review(&mut self, params: CreateReviewParams) -> (r: Result<Review, Error>) {
        Err(Error::provider_op("GitLab MR creation not yet implemented"))
    }

    fn update_review(&mut self, params: UpdateReviewParams) -> (r: Result<Review, Error>) {
        Err(Error::provider_op("GitLab MR update not yet implemented"))
    }

    fn get_review(&mut self, review_id: &str) -> (r: Result<Review, Error>) {
        Err(Error::provider_op("GitLab MR retrieval not yet implemented"))
    }

    fn find_review_for_branch(&self, branch: &str) -> (r: Result<Option<Review>, Error>) {
        Err(Error::provider_op("GitLab MR lookup by branch not yet implemented"))
    }
}

} // verus!
