//! The hosting-service abstraction: which service a repository uses, the
//! review record, and the `Provider` interface that every service variant
//! offers.

pub mod github;
pub mod gitlab;
pub mod gitlab_api;
pub mod gitlab_auth;
pub mod mock;

use crate::error::Error;
use crate::remote::{host_of, remote_host};
use crate::text::{
    all_digits, contains, contains_str, copy_string, decimal, digits_value, lemma_decimal_value,
    parse_decimal, str_eq,
};
use vstd::prelude::*;

verus! {

/// The hosting services the tool knows.
#[derive(Debug, Clone, Copy, PartialEq, Eq, Structural)]
pub enum ProviderType {
    /// GitLab, public or self-hosted.
    GitLab,
    /// GitHub.
    GitHub,
}

/// What `str::to_lowercase` makes of a string.
pub uninterp spec fn lower_of(s: Seq<char>) -> Seq<char>;

/// Relies on `str::to_lowercase`: the lowercase mapping depends on the
/// characters alone.
#[verifier::external_body]
fn lowercase(s: &str) -> (r: String)
    ensures
        r@ == lower_of(s@),
{
    s.to_lowercase()
}

/// The provider that a lowercased name denotes.
pub open spec fn kind_named(lowered: Seq<char>) -> Option<ProviderType> {
    if lowered == "gitlab"@ {
        Some(ProviderType::GitLab)
    } else if lowered == "github"@ {
        Some(ProviderType::GitHub)
    } else {
        None
    }
}

/// The provider that a remote's host points to: the GitLab family token
/// anywhere in the host (which also covers self-hosted instances), else the
/// GitHub host.
pub open spec fn kind_of_host(host: Seq<char>) -> Option<ProviderType> {
    if contains(host, "gitlab"@) {
        Some(ProviderType::GitLab)
    } else if contains(host, "github.com"@) {
        Some(ProviderType::GitHub)
    } else {
        None
    }
}

/// The provider that a remote URL points to.
pub open spec fn kind_of_remote(url: Seq<char>) -> Option<ProviderType> {
    match host_of(url) {
        Some(h) => kind_of_host(h),
        None => None,
    }
}

/// The display name of a provider.
pub open spec fn display_name_of(k: ProviderType) -> Seq<char> {
    match k {
        ProviderType::GitLab => "GitLab"@,
        ProviderType::GitHub => "GitHub"@,
    }
}

/// The companion command-line tool of a provider.
pub open spec fn cli_name_of(k: ProviderType) -> Seq<char> {
    match k {
        ProviderType::GitLab => "glab"@,
        ProviderType::GitHub => "gh"@,
    }
}

/// Where the companion tool of a provider can be installed from.
pub open spec fn install_url_of(k: ProviderType) -> Seq<char> {
    match k {
        ProviderType::GitLab => "https://gitlab.com/gitlab-org/cli"@,
        ProviderType::GitHub => "https://cli.github.com/"@,
    }
}

/// The command that logs the companion tool of a provider in.
pub open spec fn auth_command_of(k: ProviderType) -> Seq<char> {
    match k {
        ProviderType::GitLab => "glab auth login"@,
        ProviderType::GitHub => "gh auth login"@,
    }
}

/// A remote whose host holds neither the GitLab family token nor the GitHub
/// host is never given a provider.
pub proof fn lemma_unrecognised_host_has_no_kind(url: Seq<char>, host: Seq<char>)
    requires
        host_of(url) == Some(host),
        !contains(host, "gitlab"@),
        !contains(host, "github.com"@),
    ensures
        kind_of_remote(url) is None,
{
}

impl ProviderType {
    /// The provider that a name denotes, whatever its case.
    pub fn from_str(s: &str) -> (r: Result<ProviderType, Error>)
        ensures
            match kind_named(lower_of(s@)) {
                Some(k) => r == Ok::<ProviderType, Error>(k),
                None => r matches Err(Error::UnknownProvider { provider }) && provider@ == s@,
            },
    {
        let lowered = lowercase(s);
        match ProviderType::from_lowercase_name(lowered.as_str()) {
            Some(k) => Ok(k),
            None => Err(Error::UnknownProvider { provider: String::from_str(s) }),
        }
    }

    /// The provider that an already lowercased name denotes.
    pub fn from_lowercase_name(lowered: &str) -> (r: Option<ProviderType>)
        ensures
            r == kind_named(lowered@),
    {
        if str_eq(lowered, "gitlab") {
            Some(ProviderType::GitLab)
        } else if str_eq(lowered, "github") {
            Some(ProviderType::GitHub)
        } else {
            None
        }
    }

    /// The provider that a remote URL's host points to.
    pub fn from_remote_url(url: &str) -> (r: Result<ProviderType, Error>)
        ensures
            match kind_of_remote(url@) {
                Some(k) => r == Ok::<ProviderType, Error>(k),
                None => r matches Err(Error::ProviderDetectionFailed { remote_url }) && remote_url@
                    == url@,
            },
    {
        match remote_host(url) {
            Some(host) => {
                if contains_str(host, "gitlab") {
                    return Ok(ProviderType::GitLab);
                } else if contains_str(host, "github.com") {
                    return Ok(ProviderType::GitHub);
                }
            },
            None => {},
        }
        Err(Error::ProviderDetectionFailed { remote_url: String::from_str(url) })
    }

    /// The display name of the provider.
    pub fn to_string(&self) -> (r: String)
        ensures
            r@ == display_name_of(*self),
    {
        match self {
            ProviderType::GitLab => String::from_str("GitLab"),
            ProviderType::GitHub => String::from_str("GitHub"),
        }
    }

    /// The companion command-line tool of the provider.
    pub fn cli_name(&self) -> (r: &'static str)
        ensures
            r@ == cli_name_of(*self),
    {
        match self {
            ProviderType::GitLab => "glab",
            ProviderType::GitHub => "gh",
        }
    }

    /// Where the companion tool can be installed from.
    pub fn install_url(&self) -> (r: &'static str)
        ensures
            r@ == install_url_of(*self),
    {
        match self {
            ProviderType::GitLab => "https://gitlab.com/gitlab-org/cli",
            ProviderType::GitHub => "https://cli.github.com/",
        }
    }

    /// The command that logs the companion tool in.
    pub fn auth_command(&self) -> (r: &'static str)
        ensures
            r@ == auth_command_of(*self),
    {
        match self {
            ProviderType::GitLab => "glab auth login",
            ProviderType::GitHub => "gh auth login",
        }
    }
}

/// The state of a review.
#[derive(Debug, Clone, Copy, PartialEq, Eq, Structural)]
pub enum ReviewState {
    /// Open for review.
    Open,
    /// Merged.
    Merged,
    /// Closed without merging.
    Closed,
}

/// The display name of a review state.
pub open spec fn state_name_of(s: ReviewState) -> Seq<char> {
    match s {
        ReviewState::Open => "open"@,
        ReviewState::Merged => "merged"@,
        ReviewState::Closed => "closed"@,
    }
}

impl ReviewState {
    /// The display name of the state.
    pub fn to_string(&self) -> (r: String)
        ensures
            r@ == state_name_of(*self),
    {
        match self {
            ReviewState::Open => String::from_str("open"),
            ReviewState::Merged => String::from_str("merged"),
            ReviewState::Closed => String::from_str("closed"),
        }
    }
}

/// A review (merge request, pull request) as a hosting service reports it.
#[derive(Debug, Clone)]
pub struct Review {
    /// The service's own id, such as `!123` or `456`.
    pub id: String,
    /// Where the review can be seen.
    pub url: String,
    /// The title.
    pub title: String,
    /// The description.
    pub description: String,
    /// The branch whose changes are reviewed.
    pub source_branch: String,
    /// The branch the changes go into.
    pub target_branch: String,
    /// Whether the review is a draft.
    pub draft: bool,
    /// Open, merged or closed.
    pub state: ReviewState,
}

/// What a new review is made of.
#[derive(Debug, Clone)]
pub struct CreateReviewParams {
    pub source_branch: String,
    pub target_branch: String,
    pub title: String,
    pub description: String,
    pub draft: bool,
}

/// The changes to a review; a field left `None` stays as it is.
#[derive(Debug, Clone)]
pub struct UpdateReviewParams {
    /// The id of the review to change.
    pub review_id: String,
    pub title: Option<String>,
    pub description: Option<String>,
    pub target_branch: Option<String>,
    pub draft: Option<bool>,
}

/// What running a companion command-line tool showed.
#[derive(Debug, Clone)]
pub struct CliProbe {
    /// The tool could be started at all.
    pub launched: bool,
    /// It exited with success.
    pub succeeded: bool,
    /// Its exit code, or -1 when it had none.
    pub exit_code: i32,
    /// What it printed on standard output.
    pub stdout: String,
    /// What it printed on standard error.
    pub stderr: String,
}

/// The companion tool is there exactly when it could be started.
pub fn cli_probe_verdict(kind: ProviderType, probe: &CliProbe) -> (r: Result<(), Error>)
    ensures
        probe.launched ==> r is Ok,
        !probe.launched ==> (r matches Err(Error::ProviderCliNotFound { provider, cli_name, install_url })
            && provider@ == display_name_of(kind) && cli_name@ == cli_name_of(kind) && install_url@
            == install_url_of(kind)),
{
    if probe.launched {
        Ok(())
    } else {
        Err(
            Error::ProviderCliNotFound {
                provider: kind.to_string(),
                cli_name: String::from_str(kind.cli_name()),
                install_url: String::from_str(kind.install_url()),
            },
        )
    }
}

/// What `<cli> auth status` showed says the user is logged in: the tool ran,
/// succeeded, and printed `Logged in` or the provider's own marker.
pub open spec fn probe_shows_login(kind: ProviderType, probe: CliProbe) -> bool {
    probe.launched && probe.succeeded && (contains(probe.stdout@, "Logged in"@) || contains(
        probe.stdout@,
        login_marker_of(kind),
    ))
}

/// The second text, besides `Logged in`, by which a provider's
/// `<cli> auth status` reports a logged-in user.
pub open spec fn login_marker_of(k: ProviderType) -> Seq<char> {
    match k {
        ProviderType::GitLab => "Active account"@,
        ProviderType::GitHub => "\u{2713}"@,
    }
}

/// The command that reports whether the companion tool is logged in.
pub open spec fn auth_status_command_of(k: ProviderType) -> Seq<char> {
    cli_name_of(k) + " auth status"@
}

/// What `<cli> auth status` showed: the tool missing, the command failing, or
/// whether its output reports a logged-in user.
pub fn auth_status_verdict(kind: ProviderType, probe: &CliProbe) -> (r: Result<(), Error>)
    ensures
        !probe.launched ==> (r matches Err(Error::ProviderCliNotFound { provider, cli_name, install_url })
            && provider@ == display_name_of(kind) && cli_name@ == cli_name_of(kind) && install_url@
            == install_url_of(kind)),
        probe.launched && !probe.succeeded ==> (r matches Err(
            Error::CommandFailed { command, exit_code, stderr },
        ) && command@ == auth_status_command_of(kind) && exit_code == probe.exit_code && stderr
            == probe.stderr),
        r is Ok <==> probe_shows_login(kind, *probe),
        probe.launched && probe.succeeded && r is Err ==> (r matches Err(
            Error::ProviderAuthRequired { provider, auth_command },
        ) && provider@ == display_name_of(kind) && auth_command@ == auth_command_of(kind)),
{
    if !probe.launched {
        return cli_probe_verdict(kind, probe);
    }
    if !probe.succeeded {
        let mut command = String::from_str(kind.cli_name());
        command.append(" auth status");
        return Err(
            Error::CommandFailed {
                command,
                exit_code: probe.exit_code,
                stderr: copy_string(&probe.stderr),
            },
        );
    }
    let marker = match kind {
        ProviderType::GitLab => "Active account",
        ProviderType::GitHub => "\u{2713}",
    };
    if contains_str(probe.stdout.as_str(), "Logged in") || contains_str(probe.stdout.as_str(), marker) {
        Ok(())
    } else {
        Err(
            Error::ProviderAuthRequired {
                provider: kind.to_string(),
                auth_command: String::from_str(kind.auth_command()),
            },
        )
    }
}

/// A provider for the given service: the GitLab or the GitHub variant.
pub fn create_provider(provider_type: ProviderType) -> (r: Box<dyn Provider>) {
    match provider_type {
        ProviderType::GitLab => Box::new(gitlab::GitLabProvider::new()),
        ProviderType::GitHub => Box::new(github::GitHubProvider::new()),
    }
}

impl Review {
    /// A copy of the review, equal to it field by field.
    pub fn duplicate(&self) -> (r: Review)
        ensures
            r == *self,
    {
        Review {
            id: copy_string(&self.id),
            url: copy_string(&self.url),
            title: copy_string(&self.title),
            description: copy_string(&self.description),
            source_branch: copy_string(&self.source_branch),
            target_branch: copy_string(&self.target_branch),
            draft: self.draft,
            state: self.state,
        }
    }
}

/// The review number that a native review id denotes: decimal digits, after
/// an optional `!`.
pub open spec fn review_number_of(id: Seq<char>) -> Option<nat> {
    let digits = if id.len() > 0 && id[0] == '!' {
        id.drop_first()
    } else {
        id
    };
    if digits.len() > 0 && all_digits(digits) {
        Some(digits_value(digits))
    } else {
        None
    }
}

/// The native id of review number `n`: `!n` on GitLab, `n` on GitHub.
pub open spec fn native_review_id(k: ProviderType, n: nat) -> Seq<char> {
    match k {
        ProviderType::GitLab => "!"@ + decimal(n),
        ProviderType::GitHub => decimal(n),
    }
}

/// A review number written as a native id reads back as that same number.
pub proof fn lemma_review_number_round_trip(k: ProviderType, n: nat)
    ensures
        review_number_of(native_review_id(k, n)) == Some(n),
{
    reveal_strlit("!");
    lemma_decimal_value(n);
    let id = native_review_id(k, n);
    if k == ProviderType::GitLab {
        assert(id.drop_first() =~= decimal(n));
    } else {
        assert(id[0] != '!') by {
            assert(crate::text::digit_value(id[0]) is Some);
        }
    }
}

/// The native id of review number `n`.
pub fn format_review_id(kind: ProviderType, n: u64) -> (r: String)
    ensures
        r@ == native_review_id(kind, n as nat),
{
    let mut s = String::new();
    if kind == ProviderType::GitLab {
        s.append("!");
    }
    crate::text::push_decimal(&mut s, n);
    proof {
        reveal_strlit("!");
        assert(s@ =~= native_review_id(kind, n as nat));
    }
    s
}

/// The review number of a native id; anything but digits after an optional
/// `!`, or a number past `u64`, is an invalid id.
pub fn review_number(id: &str) -> (r: Result<u64, Error>)
    ensures
        match r {
            Ok(n) => review_number_of(id@) == Some(n as nat),
            Err(e) => e matches Error::InvalidReviewId { id: i } && i@ == id@ && !(
            review_number_of(id@) matches Some(n) && n <= u64::MAX),
        },
{
    let len = id.unicode_len();
    let digits = if len > 0 && id.get_char(0) == '!' {
        assert(id@.drop_first() =~= id@.subrange(1, len as int));
        id.substring_char(1, len)
    } else {
        assert(id@ =~= id@.subrange(0, len as int));
        id.substring_char(0, len)
    };
    match parse_decimal(digits) {
        Some(n) => Ok(n),
        None => Err(Error::InvalidReviewId { id: String::from_str(id) }),
    }
}

/// The operations that every hosting-service variant offers, so that the
/// workflow logic never branches on the service in use.
pub trait Provider {
    /// The service this provider talks to.
    spec fn kind(&self) -> ProviderType;

    /// The service this provider talks to.
    fn provider_type(&self) -> (r: ProviderType)
        ensures
            r == self.kind(),
    ;

    /// The companion command-line tool of the service.
    fn cli_name(&self) -> (r: &'static str)
        ensures
            r@ == cli_name_of(self.kind()),
    {
        self.provider_type().cli_name()
    }

    /// Where the companion tool can be installed from.
    fn install_url(&self) -> (r: &'static str)
        ensures
            r@ == install_url_of(self.kind()),
    {
        self.provider_type().install_url()
    }

    /// The command that logs the companion tool in.
    fn auth_command(&self) -> (r: &'static str)
        ensures
            r@ == auth_command_of(self.kind()),
    {
        self.provider_type().auth_command()
    }

    /// The companion tool counts as installed, given what starting
    /// `<cli> --version` showed.
    spec fn cli_ok(&self, probe: &CliProbe) -> bool;

    /// The user counts as logged in, given what `<cli> auth status` showed.
    spec fn logged_in(&self, probe: &CliProbe) -> bool;

    /// The review operations are implemented; a variant without them fails
    /// each one with an operation error.
    spec fn implemented(&self) -> bool;

    /// Whether the companion tool is there, given what starting
    /// `<cli> --version` showed.
    fn check_cli_available(&self, probe: &CliProbe) -> (r: Result<(), Error>)
        ensures
            r is Ok <==> self.cli_ok(probe),
            r matches Err(e) ==> e is ProviderCliNotFound,
    ;

    /// Whether the user is logged in, given what `<cli> auth status` showed.
    fn check_authentication(&self, probe: &CliProbe) -> (r: Result<(), Error>)
        ensures
            r is Ok <==> self.logged_in(probe),
            r matches Err(e) ==> e is ProviderCliNotFound || e is CommandFailed
                || e is ProviderAuthRequired,
    ;

    /// Creates a review.
    fn create_review(&mut self, params: CreateReviewParams) -> (r: Result<Review, Error>)
        ensures
            r matches Ok(v) ==> v.source_branch == params.source_branch && v.target_branch
                == params.target_branch && v.title == params.title && v.description
                == params.description && v.draft == params.draft && v.state
                == ReviewState::Open,
            !old(self).implemented() ==> r matches Err(Error::ProviderOperationFailed { .. }),
    ;

    /// Changes the fields of a review that `params` holds, and only those.
    fn update_review(&mut self, params: UpdateReviewParams) -> (r: Result<Review, Error>)
        ensures
            r matches Ok(v) ==> {
                &&& v.id@ == params.review_id@
                &&& params.title matches Some(t) ==> v.title == t
                &&& params.description matches Some(d) ==> v.description == d
                &&& params.target_branch matches Some(b) ==> v.target_branch == b
                &&& params.draft matches Some(d) ==> v.draft == d
            },
            !old(self).implemented() ==> r matches Err(Error::ProviderOperationFailed { .. }),
    ;

    /// The review with the given id.
    fn get_review(&mut self, review_id: &str) -> (r: Result<Review, Error>)
        ensures
            r matches Ok(v) ==> v.id@ == review_id@,
            !old(self).implemented() ==> r matches Err(Error::ProviderOperationFailed { .. }),
    ;

    /// The review whose source is the given branch, if there is one.
    fn find_review_for_branch(&self, branch: &str) -> (r: Result<Option<Review>, Error>)
        ensures
            r matches Ok(Some(v)) ==> v.source_branch@ == branch@,
            !self.implemented() ==> r matches Err(Error::ProviderOperationFailed { .. }),
    ;
}

} // verus!
