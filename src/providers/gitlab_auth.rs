//! Finding and verifying a GitLab credential, as a state machine.
//!
//! The sources are tried in order, and the first that yields a candidate
//! wins: the credential already held, the companion tool's configuration,
//! the git credential helper, then the companion tool's own login or a
//! prompt. A candidate must pass the token-introspection check (the required
//! scope on an active token) before the identity check, and only a candidate
//! that passes both is stored. The caller performs each step that `step()`
//! names and hands its outcome back to `GitLabClient::advance`.

use crate::text::copy_string;
use crate::providers::gitlab_api::{
    grants_required_scope, identity_reply, identity_reply_accepts, identity_reply_is,
    is_success, scope_reply, scope_reply_accepts, scope_reply_is, GitLabClient, GitLabError,
    GitLabToken, GitLabUser,
};
use crate::text::{occurs_at_exec, str_eq};
use vstd::prelude::*;

verus! {

/// What the caller does next.
#[derive(Debug, Clone, Copy, PartialEq, Eq, Structural)]
pub enum AuthStep {
    /// Ask the token-introspection endpoint about the credential already held.
    CheckStoredScopes,
    /// Ask the identity endpoint about the credential already held.
    CheckStoredIdentity,
    /// Look the host's token up in the companion tool's configuration.
    ReadCliConfig,
    /// Ask the git credential helper for the host's password.
    AskCredentialHelper,
    /// Find out whether the companion tool is installed.
    CheckCliTool,
    /// Ask the user to choose between the companion tool's login and typing a
    /// token.
    AskLoginChoice,
    /// Run the companion tool's login.
    RunCliLogin,
    /// Look the host's token up in the configuration the login wrote.
    ReadCliConfigAfterLogin,
    /// Ask the user to type a token.
    PromptForToken,
    /// Ask the token-introspection endpoint about the candidate.
    CheckScopes,
    /// Ask the identity endpoint about the candidate.
    CheckIdentity,
    /// Nothing is left to do; the outcome is known.
    Finished,
}

/// The outcome of the step the caller performed.
#[derive(Debug)]
pub enum AuthEvent {
    /// The token-introspection reply: status, body, and the decoded body or
    /// why it could not be decoded.
    ScopeReply { status: u16, body: String, decoded: Result<GitLabToken, String> },
    /// The identity reply, in the same form.
    IdentityReply { status: u16, body: String, decoded: Result<GitLabUser, String> },
    /// The request could not be sent or its reply not read.
    RequestFailed(String),
    /// What a credential source gave, if anything.
    Candidate(Option<String>),
    /// Whether the companion tool is installed.
    CliTool(bool),
    /// The user's answer to the login choice, as typed.
    Choice(String),
    /// Whether the companion tool's login succeeded.
    CliLogin(bool),
}

/// A character with the Unicode `White_Space` property, as
/// `char::is_whitespace` documents it.
pub open spec fn is_white_space(c: char) -> bool {
    ('\u{9}' <= c && c <= '\u{d}') || c == ' ' || c == '\u{85}' || c == '\u{a0}' || c
        == '\u{1680}' || ('\u{2000}' <= c && c <= '\u{200a}') || c == '\u{2028}' || c
        == '\u{2029}' || c == '\u{202f}' || c == '\u{205f}' || c == '\u{3000}'
}

/// A text without its leading white space.
pub open spec fn trim_start_ws(s: Seq<char>) -> Seq<char>
    decreases s.len(),
{
    if s.len() > 0 && is_white_space(s[0]) {
        trim_start_ws(s.drop_first())
    } else {
        s
    }
}

/// A text without its trailing white space.
pub open spec fn trim_end_ws(s: Seq<char>) -> Seq<char>
    decreases s.len(),
{
    if s.len() > 0 && is_white_space(s.last()) {
        trim_end_ws(s.drop_last())
    } else {
        s
    }
}

/// A text without its leading and trailing white space.
pub open spec fn trim_of(s: Seq<char>) -> Seq<char> {
    trim_end_ws(trim_start_ws(s))
}

/// Relies on `str::trim`: leading and trailing characters with the Unicode
/// `White_Space` property are removed.
#[verifier::external_body]
fn trimmed(s: &str) -> (r: &str)
    ensures
        r@ == trim_of(s@),
{
    s.trim()
}

/// The answer picks the companion tool's login.
pub open spec fn picks_cli_login(answer: Seq<char>) -> bool {
    trim_of(answer) == "1"@
}

/// The steps that read a credential source.
pub open spec fn is_source_step(step: AuthStep) -> bool {
    step == AuthStep::ReadCliConfig || step == AuthStep::AskCredentialHelper || step
        == AuthStep::ReadCliConfigAfterLogin || step == AuthStep::PromptForToken
}

/// The steps that only verify a candidate or are done.
pub open spec fn is_verifying(step: AuthStep) -> bool {
    step == AuthStep::CheckScopes || step == AuthStep::CheckIdentity || step == AuthStep::Finished
}

/// The step that follows `step` when `event` comes back. An event that does
/// not answer the step leaves it as it is.
pub open spec fn next_step(step: AuthStep, event: AuthEvent) -> AuthStep {
    match step {
        AuthStep::CheckStoredScopes => match event {
            AuthEvent::ScopeReply { status, decoded, .. } => if scope_reply_accepts(
                status,
                decoded,
            ) {
                AuthStep::CheckStoredIdentity
            } else {
                AuthStep::ReadCliConfig
            },
            AuthEvent::RequestFailed(_) => AuthStep::ReadCliConfig,
            _ => step,
        },
        AuthStep::CheckStoredIdentity => match event {
            AuthEvent::IdentityReply { status, decoded, .. } => if identity_reply_accepts(
                status,
                decoded,
            ) {
                AuthStep::Finished
            } else {
                AuthStep::ReadCliConfig
            },
            AuthEvent::RequestFailed(_) => AuthStep::ReadCliConfig,
            _ => step,
        },
        AuthStep::ReadCliConfig => match event {
            AuthEvent::Candidate(Some(_)) => AuthStep::CheckScopes,
            AuthEvent::Candidate(None) => AuthStep::AskCredentialHelper,
            _ => step,
        },
        AuthStep::AskCredentialHelper => match event {
            AuthEvent::Candidate(Some(_)) => AuthStep::CheckScopes,
            AuthEvent::Candidate(None) => AuthStep::CheckCliTool,
            _ => step,
        },
        AuthStep::CheckCliTool => match event {
            AuthEvent::CliTool(true) => AuthStep::AskLoginChoice,
            AuthEvent::CliTool(false) => AuthStep::PromptForToken,
            _ => step,
        },
        AuthStep::AskLoginChoice => match event {
            AuthEvent::Choice(answer) => if picks_cli_login(answer@) {
                AuthStep::RunCliLogin
            } else {
                AuthStep::PromptForToken
            },
            _ => step,
        },
        AuthStep::RunCliLogin => match event {
            AuthEvent::CliLogin(true) => AuthStep::ReadCliConfigAfterLogin,
            AuthEvent::CliLogin(false) => AuthStep::PromptForToken,
            _ => step,
        },
        AuthStep::ReadCliConfigAfterLogin => match event {
            AuthEvent::Candidate(Some(_)) => AuthStep::CheckScopes,
            AuthEvent::Candidate(None) => AuthStep::PromptForToken,
            _ => step,
        },
        AuthStep::PromptForToken => match event {
            AuthEvent::Candidate(Some(_)) => AuthStep::CheckScopes,
            AuthEvent::Candidate(None) => AuthStep::Finished,
            _ => step,
        },
        AuthStep::CheckScopes => match event {
            AuthEvent::ScopeReply { status, decoded, .. } => if scope_reply_accepts(
                status,
                decoded,
            ) {
                AuthStep::CheckIdentity
            } else {
                AuthStep::Finished
            },
            AuthEvent::RequestFailed(_) => AuthStep::Finished,
            _ => step,
        },
        AuthStep::CheckIdentity => match event {
            AuthEvent::IdentityReply { .. } => AuthStep::Finished,
            AuthEvent::RequestFailed(_) => AuthStep::Finished,
            _ => step,
        },
        AuthStep::Finished => step,
    }
}

/// The candidate after `event`: what a credential source gave, else the
/// candidate before.
pub open spec fn next_candidate(step: AuthStep, candidate: Option<String>, event: AuthEvent) -> Option<String> {
    if is_source_step(step) && event is Candidate && event->Candidate_0 is Some {
        event->Candidate_0
    } else {
        candidate
    }
}

/// The credential the client holds after `event`: a held credential that
/// fails either check is dropped, and a candidate is stored only when the
/// identity check accepts it.
pub open spec fn next_token(
    token: Option<String>,
    step: AuthStep,
    candidate: Option<String>,
    event: AuthEvent,
) -> Option<String> {
    match step {
        AuthStep::CheckStoredScopes => match event {
            AuthEvent::ScopeReply { status, decoded, .. } => if scope_reply_accepts(
                status,
                decoded,
            ) {
                token
            } else {
                None
            },
            AuthEvent::RequestFailed(_) => None,
            _ => token,
        },
        AuthStep::CheckStoredIdentity => match event {
            AuthEvent::IdentityReply { status, decoded, .. } => if identity_reply_accepts(
                status,
                decoded,
            ) {
                token
            } else {
                None
            },
            AuthEvent::RequestFailed(_) => None,
            _ => token,
        },
        AuthStep::CheckIdentity => match event {
            AuthEvent::IdentityReply { status, decoded, .. } => if identity_reply_accepts(
                status,
                decoded,
            ) {
                candidate
            } else {
                token
            },
            _ => token,
        },
        _ => token,
    }
}

/// `outcome` is what the authentication has come to after `event`, from
/// `before`: the user once an identity check accepts, no credential when the
/// prompt yields none, the error of a failing check of a candidate, and
/// otherwise what it was.
pub open spec fn next_outcome_is(
    token_page: Seq<char>,
    step: AuthStep,
    before: Option<Result<GitLabUser, GitLabError>>,
    event: AuthEvent,
    outcome: Option<Result<GitLabUser, GitLabError>>,
) -> bool {
    match step {
        AuthStep::CheckStoredIdentity => match event {
            AuthEvent::IdentityReply { status, decoded, .. } => if identity_reply_accepts(
                status,
                decoded,
            ) {
                outcome == Some(Ok::<GitLabUser, GitLabError>(decoded->Ok_0))
            } else {
                outcome == before
            },
            _ => outcome == before,
        },
        AuthStep::PromptForToken => match event {
            AuthEvent::Candidate(None) => outcome matches Some(
                Err(GitLabError::NoTokenAvailable { create_url }),
            ) && create_url@ == token_page,
            _ => outcome == before,
        },
        AuthStep::CheckScopes => match event {
            AuthEvent::ScopeReply { status, body, decoded } => if scope_reply_accepts(
                status,
                decoded,
            ) {
                outcome == before
            } else {
                outcome matches Some(Err(e)) && scope_reply_is(
                    status,
                    body,
                    decoded,
                    Err::<(), GitLabError>(e),
                )
            },
            AuthEvent::RequestFailed(m) => outcome == Some(
                Err::<GitLabUser, GitLabError>(GitLabError::RequestFailed(m)),
            ),
            _ => outcome == before,
        },
        AuthStep::CheckIdentity => match event {
            AuthEvent::IdentityReply { status, body, decoded } => outcome matches Some(r)
                && identity_reply_is(status, body, decoded, r),
            AuthEvent::RequestFailed(m) => outcome == Some(
                Err::<GitLabUser, GitLabError>(GitLabError::RequestFailed(m)),
            ),
            _ => outcome == before,
        },
        _ => outcome == before,
    }
}

/// The step reached from `step` when `events` come back one after the other.
pub open spec fn run_steps(step: AuthStep, events: Seq<AuthEvent>) -> AuthStep
    decreases events.len(),
{
    if events.len() == 0 {
        step
    } else {
        run_steps(next_step(step, events[0]), events.drop_first())
    }
}

/// From a verification step, whatever comes back, only verification steps
/// follow.
proof fn lemma_verifying_stays(step: AuthStep, events: Seq<AuthEvent>)
    requires
        is_verifying(step),
    ensures
        is_verifying(run_steps(step, events)),
    decreases events.len(),
{
    if events.len() > 0 {
        lemma_verifying_stays(next_step(step, events[0]), events.drop_first());
    }
}

/// Once the companion tool's configuration gives a token, neither the
/// credential helper nor the companion tool nor the prompt is asked: whatever
/// comes back afterwards, every later step only verifies that token or is
/// done.
pub proof fn lemma_config_token_ends_search(token: String, later: Seq<AuthEvent>)
    ensures
        next_step(AuthStep::ReadCliConfig, AuthEvent::Candidate(Some(token)))
            == AuthStep::CheckScopes,
        is_verifying(
            run_steps(AuthStep::ReadCliConfig, seq![AuthEvent::Candidate(Some(token))] + later),
        ),
{
    let events = seq![AuthEvent::Candidate(Some(token))] + later;
    assert(events.drop_first() =~= later);
    lemma_verifying_stays(AuthStep::CheckScopes, later);
}

/// A credential whose introspection reply lacks the required scope is never
/// stored: checking a candidate ends the authentication with the
/// missing-scope error and leaves the stored credential as it was (a client
/// that held none still holds none), and a held credential with such a reply
/// is dropped.
pub proof fn lemma_unscoped_credential_not_cached(
    token: Option<String>,
    candidate: Option<String>,
    status: u16,
    body: String,
    info: GitLabToken,
    before: Option<Result<GitLabUser, GitLabError>>,
    after: Option<Result<GitLabUser, GitLabError>>,
    page: Seq<char>,
)
    requires
        is_success(status),
        !grants_required_scope(info),
    ensures
        next_step(
            AuthStep::CheckScopes,
            AuthEvent::ScopeReply { status, body, decoded: Ok(info) },
        ) == AuthStep::Finished,
        next_token(
            token,
            AuthStep::CheckScopes,
            candidate,
            AuthEvent::ScopeReply { status, body, decoded: Ok(info) },
        ) == token,
        next_token(
            token,
            AuthStep::CheckStoredScopes,
            candidate,
            AuthEvent::ScopeReply { status, body, decoded: Ok(info) },
        ) is None,
        next_outcome_is(
            page,
            AuthStep::CheckScopes,
            before,
            AuthEvent::ScopeReply { status, body, decoded: Ok(info) },
            after,
        ) ==> (after matches Some(Err(GitLabError::MissingScope { required }))
            && required@ == crate::providers::gitlab_api::required_scope()),
{
}

/// A candidate becomes the stored credential only when the identity check
/// accepts it, and that check is reached only from a scope check that
/// accepted the candidate (the required scope on an active token).
pub proof fn lemma_stored_only_after_both_checks(
    token: Option<String>,
    step: AuthStep,
    candidate: Option<String>,
    event: AuthEvent,
)
    ensures
        next_token(token, step, candidate, event) != token ==> next_token(
            token,
            step,
            candidate,
            event,
        ) is None || (step == AuthStep::CheckIdentity && (event matches AuthEvent::IdentityReply {
            status,
            decoded,
            ..
        } && identity_reply_accepts(status, decoded)) && next_token(token, step, candidate, event)
            == candidate),
        next_step(step, event) == AuthStep::CheckIdentity ==> step == AuthStep::CheckIdentity || (
        step == AuthStep::CheckScopes && (event matches AuthEvent::ScopeReply { status, decoded, .. }
            && scope_reply_accepts(status, decoded))),
{
}

/// An authentication in progress.
pub struct Authentication {
    step: AuthStep,
    candidate: Option<String>,
    outcome: Option<Result<GitLabUser, GitLabError>>,
}

impl Authentication {
    /// What the caller does next.
    pub closed spec fn current(&self) -> AuthStep {
        self.step
    }

    /// The candidate credential being verified, if any.
    pub closed spec fn candidate_token(&self) -> Option<String> {
        self.candidate
    }

    /// The authentication is finished exactly when its outcome is known.
    pub closed spec fn wf(&self) -> bool {
        (self.step == AuthStep::Finished) == (self.outcome is Some)
    }

    /// The outcome, once known.
    pub closed spec fn result(&self) -> Option<Result<GitLabUser, GitLabError>> {
        self.outcome
    }

    /// What the caller does next.
    pub fn step(&self) -> (r: AuthStep)
        ensures
            r == self.current(),
    {
        self.step
    }

    /// The credential to send in the step's request: the candidate, if any.
    pub fn candidate(&self) -> (r: Option<&str>)
        ensures
            match self.candidate_token() {
                Some(t) => r matches Some(s) && s@ == t@,
                None => r is None,
            },
    {
        match &self.candidate {
            Some(t) => Some(t.as_str()),
            None => None,
        }
    }

    /// The outcome, once known.
    pub fn outcome(&self) -> (r: Option<Result<GitLabUser, GitLabError>>)
        ensures
            r == self.result(),
    {
        match &self.outcome {
            Some(Ok(u)) => Some(
                Ok(GitLabUser { id: u.id, username: copy_string(&u.username), name: copy_string(&u.name) }),
            ),
            Some(Err(e)) => Some(Err(e.duplicate())),
            None => None,
        }
    }
}

impl GitLabClient {
    /// Starts an authentication: a held credential is checked first, else the
    /// sources are read from the companion tool's configuration on.
    pub fn start_authentication(&self) -> (r: Authentication)
        ensures
            self.credential() is Some ==> r.current() == AuthStep::CheckStoredScopes,
            self.credential() is None ==> r.current() == AuthStep::ReadCliConfig,
            r.candidate_token() == self.credential(),
            r.result() is None,
            r.wf(),
    {
        let candidate = match &self.token_ref() {
            Some(t) => Some(copy_string(t)),
            None => None,
        };
        let step = if candidate.is_some() {
            AuthStep::CheckStoredScopes
        } else {
            AuthStep::ReadCliConfig
        };
        Authentication { step, candidate, outcome: None }
    }

    /// Takes the outcome of the step the caller performed and moves the
    /// authentication on.
    pub fn advance(&mut self, auth: &mut Authentication, event: AuthEvent)
        requires
            old(auth).wf(),
        ensures
            final(auth).wf(),
            final(auth).current() == AuthStep::Finished <==> final(auth).result() is Some,
            final(self).token_page() == old(self).token_page(),
            final(auth).current() == next_step(old(auth).current(), event),
            final(auth).candidate_token() == next_candidate(
                old(auth).current(),
                old(auth).candidate_token(),
                event,
            ),
            final(self).credential() == next_token(
                old(self).credential(),
                old(auth).current(),
                old(auth).candidate_token(),
                event,
            ),
            next_outcome_is(
                old(self).token_page(),
                old(auth).current(),
                old(auth).result(),
                event,
                final(auth).result(),
            ),
            final(self).api() == old(self).api(),
    {
        match auth.step {
            AuthStep::CheckStoredScopes => match event {
                AuthEvent::ScopeReply { status, body, decoded } => {
                    if scope_reply(status, body, decoded).is_ok() {
                        auth.step = AuthStep::CheckStoredIdentity;
                    } else {
                        self.clear_token();
                        auth.step = AuthStep::ReadCliConfig;
                    }
                },
                AuthEvent::RequestFailed(_) => {
                    self.clear_token();
                    auth.step = AuthStep::ReadCliConfig;
                },
                _ => {},
            },
            AuthStep::CheckStoredIdentity => match event {
                AuthEvent::IdentityReply { status, body, decoded } => {
                    match identity_reply(status, body, decoded) {
                        Ok(u) => {
                            auth.outcome = Some(Ok(u));
                            auth.step = AuthStep::Finished;
                        },
                        Err(_) => {
                            self.clear_token();
                            auth.step = AuthStep::ReadCliConfig;
                        },
                    }
                },
                AuthEvent::RequestFailed(_) => {
                    self.clear_token();
                    auth.step = AuthStep::ReadCliConfig;
                },
                _ => {},
            },
            AuthStep::ReadCliConfig | AuthStep::AskCredentialHelper
            | AuthStep::ReadCliConfigAfterLogin | AuthStep::PromptForToken => match event {
                AuthEvent::Candidate(Some(t)) => {
                    auth.candidate = Some(t);
                    auth.step = AuthStep::CheckScopes;
                },
                AuthEvent::Candidate(None) => {
                    auth.step = match auth.step {
                        AuthStep::ReadCliConfig => AuthStep::AskCredentialHelper,
                        AuthStep::AskCredentialHelper => AuthStep::CheckCliTool,
                        AuthStep::ReadCliConfigAfterLogin => AuthStep::PromptForToken,
                        _ => AuthStep::Finished,
                    };
                    if auth.step == AuthStep::Finished {
                        auth.outcome = Some(Err(self.no_token()));
                    }
                },
                _ => {},
            },
            AuthStep::CheckCliTool => match event {
                AuthEvent::CliTool(available) => {
                    auth.step = if available {
                        AuthStep::AskLoginChoice
                    } else {
                        AuthStep::PromptForToken
                    };
                },
                _ => {},
            },
            AuthStep::AskLoginChoice => match event {
                AuthEvent::Choice(answer) => {
                    auth.step = if is_cli_login_choice(answer.as_str()) {
                        AuthStep::RunCliLogin
                    } else {
                        AuthStep::PromptForToken
                    };
                },
                _ => {},
            },
            AuthStep::RunCliLogin => match event {
                AuthEvent::CliLogin(succeeded) => {
                    auth.step = if succeeded {
                        AuthStep::ReadCliConfigAfterLogin
                    } else {
                        AuthStep::PromptForToken
                    };
                },
                _ => {},
            },
            AuthStep::CheckScopes => match event {
                AuthEvent::ScopeReply { status, body, decoded } => {
                    match scope_reply(status, body, decoded) {
                        Ok(()) => {
                            auth.step = AuthStep::CheckIdentity;
                        },
                        Err(e) => {
                            auth.outcome = Some(Err(e));
                            auth.step = AuthStep::Finished;
                        },
                    }
                },
                AuthEvent::RequestFailed(m) => {
                    auth.outcome = Some(Err(GitLabError::RequestFailed(m)));
                    auth.step = AuthStep::Finished;
                },
                _ => {},
            },
            AuthStep::CheckIdentity => match event {
                AuthEvent::IdentityReply { status, body, decoded } => {
                    let r = identity_reply(status, body, decoded);
                    if r.is_ok() {
                        match &auth.candidate {
                            Some(t) => self.set_token(copy_string(t)),
                            None => self.clear_token(),
                        }
                    }
                    auth.outcome = Some(r);
                    auth.step = AuthStep::Finished;
                },
                AuthEvent::RequestFailed(m) => {
                    auth.outcome = Some(Err(GitLabError::RequestFailed(m)));
                    auth.step = AuthStep::Finished;
                },
                _ => {},
            },
            AuthStep::Finished => {},
        }
    }
}

/// A host and its token, as the companion tool's configuration lists them
/// under `hosts.<host>.token`.
#[derive(Debug, Clone)]
pub struct HostToken {
    pub host: String,
    pub token: String,
}

/// The token listed for `host`: the first entry for it.
pub open spec fn host_token_of(entries: Seq<HostToken>, host: Seq<char>) -> Option<String>
    decreases entries.len(),
{
    if entries.len() == 0 {
        None
    } else if entries[0].host@ == host {
        Some(entries[0].token)
    } else {
        host_token_of(entries.drop_first(), host)
    }
}

/// The token that the companion tool's configuration lists for `host`.
pub fn token_for_host(entries: &Vec<HostToken>, host: &str) -> (r: Option<String>)
    ensures
        r == host_token_of(entries@, host@),
{
    let mut i: usize = 0;
    assert(entries@.subrange(0, entries@.len() as int) =~= entries@);
    while i < entries.len()
        invariant
            i <= entries@.len(),
            host_token_of(entries@, host@) == host_token_of(
                entries@.subrange(i as int, entries@.len() as int),
                host@,
            ),
        decreases entries@.len() - i,
    {
        let ghost rest = entries@.subrange(i as int, entries@.len() as int);
        assert(rest.drop_first() =~= entries@.subrange(i + 1, entries@.len() as int));
        if str_eq(entries[i].host.as_str(), host) {
            return Some(copy_string(&entries[i].token));
        }
        i = i + 1;
    }
    None
}

/// The request that asks the git credential helper about `host`.
pub open spec fn credential_request_of(host: Seq<char>) -> Seq<char> {
    "protocol=https\nhost="@ + host + "\n\n"@
}

/// The request that asks the git credential helper about `host`.
pub fn credential_request(host: &str) -> (r: String)
    ensures
        r@ == credential_request_of(host@),
{
    let mut s = String::from_str("protocol=https\nhost=");
    s.append(host);
    s.append("\n\n");
    s
}

/// The password a line gives, if it is a `password=` line.
pub open spec fn password_of_line(line: Seq<char>) -> Option<Seq<char>> {
    let key = "password="@;
    if key.len() <= line.len() && line.subrange(0, key.len() as int) == key {
        Some(line.subrange(key.len() as int, line.len() as int))
    } else {
        None
    }
}

/// A line without the carriage return that ends it, if one does.
pub open spec fn without_cr(line: Seq<char>) -> Seq<char> {
    if line.len() > 0 && line.last() == '\r' {
        line.drop_last()
    } else {
        line
    }
}

/// The first `password=` line's password in `s`, reading the line that
/// starts at `start` and whose characters up to `i` are read; lines end at
/// `\n` (with an `\r` before it dropped), and the last may end at the end.
pub open spec fn password_scan(s: Seq<char>, start: int, i: int) -> Option<Seq<char>>
    decreases s.len() - i,
{
    if i >= s.len() {
        if start < s.len() {
            password_of_line(s.subrange(start, s.len() as int))
        } else {
            None
        }
    } else if s[i] == '\n' {
        match password_of_line(without_cr(s.subrange(start, i))) {
            Some(p) => Some(p),
            None => password_scan(s, i + 1, i + 1),
        }
    } else {
        password_scan(s, start, i + 1)
    }
}

/// The password in the credential helper's reply: that of its first
/// `password=` line.
pub open spec fn password_in(s: Seq<char>) -> Option<Seq<char>> {
    password_scan(s, 0, 0)
}

/// The password a line gives, if it is a `password=` line.
fn password_from_line(line: &str) -> (r: Option<String>)
    ensures
        match password_of_line(line@) {
            Some(p) => r matches Some(t) && t@ == p,
            None => r is None,
        },
{
    proof {
        reveal_strlit("password=");
    }
    let n = line.unicode_len();
    if n >= 9 && occurs_at_exec(line, "password=", 0) {
        Some(String::from_str(line.substring_char(9, n)))
    } else {
        None
    }
}

/// The password in the git credential helper's reply, if it gives one.
pub fn password_from_credential_output(out: &str) -> (r: Option<String>)
    ensures
        match password_in(out@) {
            Some(p) => r matches Some(t) && t@ == p,
            None => r is None,
        },
{
    let n = out.unicode_len();
    let mut start: usize = 0;
    let mut i: usize = 0;
    while i < n
        invariant
            n == out@.len(),
            start <= i <= n,
            password_in(out@) == password_scan(out@, start as int, i as int),
        decreases n - i,
    {
        if out.get_char(i) == '\n' {
            let mut e = i;
            if e > start && out.get_char(e - 1) == '\r' {
                e = e - 1;
                assert(out@.subrange(start as int, i as int).drop_last() =~= out@.subrange(
                    start as int,
                    e as int,
                ));
            }
            match password_from_line(out.substring_char(start, e)) {
                Some(p) => {
                    return Some(p);
                },
                None => {},
            }
            start = i + 1;
        }
        i = i + 1;
    }
    if start < n {
        password_from_line(out.substring_char(start, n))
    } else {
        None
    }
}

/// Whether an answer to the login choice picks the companion tool's login.
pub fn is_cli_login_choice(answer: &str) -> (r: bool)
    ensures
        r == picks_cli_login(answer@),
{
    str_eq(trimmed(answer), "1")
}

/// The token a typed line gives: the line trimmed, or none when that is
/// empty.
pub fn token_from_input(line: &str) -> (r: Option<String>)
    ensures
        trim_of(line@).len() == 0 ==> r is None,
        trim_of(line@).len() > 0 ==> (r matches Some(t) && t@ == trim_of(line@)),
{
    let t = trimmed(line);
    if t.unicode_len() == 0 {
        None
    } else {
        Some(String::from_str(t))
    }
}

} // verus!
