//! The GitLab REST client's logic: the API base URL and endpoints, what each
//! reply means, and the credential search and verification as a state
//! machine. The caller performs the requests, reads files and prompts, and
//! hands each outcome back.

use crate::providers::{format_review_id, native_review_id, ProviderType, Review,
    ReviewState};
use crate::text::{
    copy_string, decimal, find_from, find_str_from, lemma_find_from, occurs_at_exec, push_decimal, str_eq,
};
use vstd::prelude::*;
use vstd::string::StringSliceAdditionalSpecFns;

verus! {

/// What can go wrong when talking to GitLab.
#[derive(Debug, Clone)]
pub enum GitLabError {
    /// The request could not be sent or its reply not read.
    RequestFailed(String),
    /// A reply body is not the JSON that was expected.
    JsonParseFailed(String),
    /// The companion tool's configuration is not valid YAML.
    YamlParseFailed(String),
    /// The credential was rejected, or is no longer active.
    AuthenticationFailed,
    /// The credential works but lacks a scope that is needed.
    MissingScope { required: String },
    /// No credential could be found; one can be made at `create_url`.
    NoTokenAvailable { create_url: String },
    /// No merge request has this number.
    MergeRequestNotFound(u64),
    /// Any other unsuccessful reply, with its status and body.
    ApiError { status: u16, message: String },
    /// An input or output operation failed.
    IoError(String),
    /// Anything else.
    Other(String),
}

impl GitLabError {
    /// A copy of the error, equal to it.
    pub fn duplicate(&self) -> (r: GitLabError)
        ensures
            r == *self,
    {
        match self {
            GitLabError::RequestFailed(m) => GitLabError::RequestFailed(copy_string(m)),
            GitLabError::JsonParseFailed(m) => GitLabError::JsonParseFailed(copy_string(m)),
            GitLabError::YamlParseFailed(m) => GitLabError::YamlParseFailed(copy_string(m)),
            GitLabError::AuthenticationFailed => GitLabError::AuthenticationFailed,
            GitLabError::MissingScope { required } => GitLabError::MissingScope {
                required: copy_string(required),
            },
            GitLabError::NoTokenAvailable { create_url } => GitLabError::NoTokenAvailable {
                create_url: copy_string(create_url),
            },
            GitLabError::MergeRequestNotFound(n) => GitLabError::MergeRequestNotFound(*n),
            GitLabError::ApiError { status, message } => GitLabError::ApiError {
                status: *status,
                message: copy_string(message),
            },
            GitLabError::IoError(m) => GitLabError::IoError(copy_string(m)),
            GitLabError::Other(m) => GitLabError::Other(copy_string(m)),
        }
    }
}

/// The user a credential belongs to.
#[derive(Debug, Clone)]
pub struct GitLabUser {
    pub id: u64,
    pub username: String,
    pub name: String,
}

/// What the token-introspection endpoint says of a credential.
#[derive(Debug, Clone)]
pub struct GitLabToken {
    pub scopes: Vec<String>,
    pub active: bool,
}

/// A merge request as the API reports it.
#[derive(Debug, Clone)]
pub struct MergeRequest {
    pub iid: u64,
    pub id: u64,
    pub title: String,
    pub description: Option<String>,
    pub state: String,
    pub web_url: String,
    pub source_branch: String,
    pub target_branch: String,
    pub draft: bool,
}

/// The body of a merge-request creation; absent fields are not sent.
#[derive(Debug, Clone)]
pub struct CreateMergeRequestParams {
    pub source_branch: String,
    pub target_branch: String,
    pub title: String,
    pub description: Option<String>,
    pub draft: Option<bool>,
}

/// The body of a merge-request update; absent fields are not sent, and the
/// server leaves them as they are.
#[derive(Debug, Clone)]
pub struct UpdateMergeRequestParams {
    pub title: Option<String>,
    pub description: Option<String>,
    pub target_branch: Option<String>,
    pub draft: Option<bool>,
}

/// A byte that percent-encoding leaves as it is: ASCII letters and digits,
/// `-`, `.`, `_` and `~`.
pub open spec fn is_unreserved(b: u8) -> bool {
    (48 <= b <= 57) || (65 <= b <= 90) || (97 <= b <= 122) || b == 45 || b == 46 || b == 95 || b
        == 126
}

/// The uppercase hexadecimal digit of a value below 16.
pub open spec fn hex_digit(d: u8) -> char {
    if d < 10 {
        (48 + d) as char
    } else {
        (55 + d) as char
    }
}

/// Percent-encoding of a byte string: unreserved bytes stay, every other byte
/// becomes `%` and two uppercase hexadecimal digits.
pub open spec fn percent_encoded(b: Seq<u8>) -> Seq<char>
    decreases b.len(),
{
    if b.len() == 0 {
        Seq::empty()
    } else {
        let x = b.last();
        percent_encoded(b.drop_last()) + if is_unreserved(x) {
            seq![x as char]
        } else {
            seq!['%', hex_digit(x / 16), hex_digit(x % 16)]
        }
    }
}

/// Relies on `urlencoding::encode`: every byte of the UTF-8 text except ASCII
/// letters, digits, `-`, `.`, `_` and `~` is written as `%` and two uppercase
/// hexadecimal digits.
#[verifier::external_body]
fn url_encode(s: &str) -> (r: String)
    ensures
        r@ == percent_encoded(s.spec_bytes()),
{
    urlencoding::encode(s).into_owned()
}

/// The scope that creating and changing merge requests needs.
pub open spec fn required_scope() -> Seq<char> {
    "api"@
}

/// A 2xx status.
pub open spec fn is_success(status: u16) -> bool {
    200 <= status < 300
}

/// The token grants the required scope.
pub open spec fn grants_required_scope(info: GitLabToken) -> bool {
    exists|i: int| 0 <= i < info.scopes@.len() && (#[trigger] info.scopes@[i])@ == required_scope()
}

/// A token-introspection reply that accepts the credential.
pub open spec fn scope_reply_accepts(status: u16, decoded: Result<GitLabToken, String>) -> bool {
    is_success(status) && (decoded matches Ok(info) && grants_required_scope(info) && info.active)
}

/// `r` is what a token-introspection reply means: 401 rejects the credential,
/// another unsuccessful status is an API error, an unreadable body a JSON
/// error; then the required scope must be granted, and the token be active.
pub open spec fn scope_reply_is(
    status: u16,
    body: String,
    decoded: Result<GitLabToken, String>,
    r: Result<(), GitLabError>,
) -> bool {
    if status == 401 {
        r == Err::<(), GitLabError>(GitLabError::AuthenticationFailed)
    } else if !is_success(status) {
        r == Err::<(), GitLabError>(GitLabError::ApiError { status, message: body })
    } else {
        match decoded {
            Err(m) => r == Err::<(), GitLabError>(GitLabError::JsonParseFailed(m)),
            Ok(info) => if !grants_required_scope(info) {
                r matches Err(GitLabError::MissingScope { required }) && required@
                    == required_scope()
            } else if !info.active {
                r == Err::<(), GitLabError>(GitLabError::AuthenticationFailed)
            } else {
                r == Ok::<(), GitLabError>(())
            },
        }
    }
}

/// An identity reply that accepts the credential.
pub open spec fn identity_reply_accepts(status: u16, decoded: Result<GitLabUser, String>) -> bool {
    is_success(status) && decoded is Ok
}

/// `r` is what an identity reply means: 401 rejects the credential, another
/// unsuccessful status is an API error, an unreadable body a JSON error, and
/// otherwise the user is known.
pub open spec fn identity_reply_is(
    status: u16,
    body: String,
    decoded: Result<GitLabUser, String>,
    r: Result<GitLabUser, GitLabError>,
) -> bool {
    if status == 401 {
        r == Err::<GitLabUser, GitLabError>(GitLabError::AuthenticationFailed)
    } else if !is_success(status) {
        r == Err::<GitLabUser, GitLabError>(GitLabError::ApiError { status, message: body })
    } else {
        match decoded {
            Err(m) => r == Err::<GitLabUser, GitLabError>(GitLabError::JsonParseFailed(m)),
            Ok(u) => r == Ok::<GitLabUser, GitLabError>(u),
        }
    }
}

/// `r` is what a merge-request reply means: an unsuccessful status is an API
/// error with status and body, an unreadable body a JSON error.
pub open spec fn merge_request_reply_is(
    status: u16,
    body: String,
    decoded: Result<MergeRequest, String>,
    r: Result<MergeRequest, GitLabError>,
) -> bool {
    if !is_success(status) {
        r == Err::<MergeRequest, GitLabError>(GitLabError::ApiError { status, message: body })
    } else {
        match decoded {
            Err(m) => r == Err::<MergeRequest, GitLabError>(GitLabError::JsonParseFailed(m)),
            Ok(mr) => r == Ok::<MergeRequest, GitLabError>(mr),
        }
    }
}

/// Whether the token grants the required scope.
fn has_required_scope(info: &GitLabToken) -> (r: bool)
    ensures
        r == grants_required_scope(*info),
{
    let mut i: usize = 0;
    while i < info.scopes.len()
        invariant
            i <= info.scopes@.len(),
            forall|j: int| 0 <= j < i ==> (#[trigger] info.scopes@[j])@ != required_scope(),
        decreases info.scopes@.len() - i,
    {
        if str_eq(info.scopes[i].as_str(), "api") {
            return true;
        }
        i = i + 1;
    }
    false
}

/// What a token-introspection reply means for the credential.
pub fn scope_reply(status: u16, body: String, decoded: Result<GitLabToken, String>) -> (r: Result<
    (),
    GitLabError,
>)
    ensures
        scope_reply_is(status, body, decoded, r),
        r is Ok <==> scope_reply_accepts(status, decoded),
{
    if status == 401 {
        return Err(GitLabError::AuthenticationFailed);
    }
    if status < 200 || status >= 300 {
        return Err(GitLabError::ApiError { status, message: body });
    }
    match decoded {
        Err(m) => Err(GitLabError::JsonParseFailed(m)),
        Ok(info) => {
            if !has_required_scope(&info) {
                Err(GitLabError::MissingScope { required: String::from_str("api") })
            } else if !info.active {
                Err(GitLabError::AuthenticationFailed)
            } else {
                Ok(())
            }
        },
    }
}

/// What an identity reply means for the credential.
pub fn identity_reply(status: u16, body: String, decoded: Result<GitLabUser, String>) -> (r: Result<
    GitLabUser,
    GitLabError,
>)
    ensures
        identity_reply_is(status, body, decoded, r),
        r is Ok <==> identity_reply_accepts(status, decoded),
{
    if status == 401 {
        return Err(GitLabError::AuthenticationFailed);
    }
    if status < 200 || status >= 300 {
        return Err(GitLabError::ApiError { status, message: body });
    }
    match decoded {
        Err(m) => Err(GitLabError::JsonParseFailed(m)),
        Ok(u) => Ok(u),
    }
}

/// What the reply to a merge-request creation or update means.
pub fn merge_request_reply(
    status: u16,
    body: String,
    decoded: Result<MergeRequest, String>,
) -> (r: Result<MergeRequest, GitLabError>)
    ensures
        merge_request_reply_is(status, body, decoded, r),
{
    if status < 200 || status >= 300 {
        return Err(GitLabError::ApiError { status, message: body });
    }
    match decoded {
        Err(m) => Err(GitLabError::JsonParseFailed(m)),
        Ok(mr) => Ok(mr),
    }
}

/// What the reply to fetching merge request `iid` means: 404 is that no such
/// merge request exists, apart from every other failure.
pub fn get_merge_request_reply(
    iid: u64,
    status: u16,
    body: String,
    decoded: Result<MergeRequest, String>,
) -> (r: Result<MergeRequest, GitLabError>)
    ensures
        status == 404 ==> r == Err::<MergeRequest, GitLabError>(
            GitLabError::MergeRequestNotFound(iid),
        ),
        status != 404 ==> merge_request_reply_is(status, body, decoded, r),
{
    if status == 404 {
        return Err(GitLabError::MergeRequestNotFound(iid));
    }
    merge_request_reply(status, body, decoded)
}

/// The review state that a merge request's state names.
pub open spec fn review_state_of(state: Seq<char>) -> ReviewState {
    if state == "merged"@ {
        ReviewState::Merged
    } else if state == "closed"@ || state == "locked"@ {
        ReviewState::Closed
    } else {
        ReviewState::Open
    }
}

impl MergeRequest {
    /// The merge request as a review: `!iid` as its id, the web address as
    /// its URL, and an empty description when it has none.
    pub fn to_review(&self) -> (r: Review)
        ensures
            r.id@ == native_review_id(ProviderType::GitLab, self.iid as nat),
            r.url == self.web_url,
            r.title == self.title,
            match self.description {
                Some(d) => r.description == d,
                None => r.description@.len() == 0,
            },
            r.source_branch == self.source_branch,
            r.target_branch == self.target_branch,
            r.draft == self.draft,
            r.state == review_state_of(self.state@),
    {
        let state = if str_eq(self.state.as_str(), "merged") {
            ReviewState::Merged
        } else if str_eq(self.state.as_str(), "closed") || str_eq(self.state.as_str(), "locked") {
            ReviewState::Closed
        } else {
            ReviewState::Open
        };
        Review {
            id: format_review_id(ProviderType::GitLab, self.iid),
            url: copy_string(&self.web_url),
            title: copy_string(&self.title),
            description: match &self.description {
                Some(d) => copy_string(d),
                None => String::new(),
            },
            source_branch: copy_string(&self.source_branch),
            target_branch: copy_string(&self.target_branch),
            draft: self.draft,
            state,
        }
    }
}

/// A text without every trailing `/`.
pub open spec fn trim_trailing_slashes(s: Seq<char>) -> Seq<char>
    decreases s.len(),
{
    if s.len() > 0 && s.last() == '/' {
        trim_trailing_slashes(s.drop_last())
    } else {
        s
    }
}

/// A text without every leading copy of `prefix`.
pub open spec fn trim_leading(s: Seq<char>, prefix: Seq<char>) -> Seq<char>
    decreases s.len(),
{
    if prefix.len() > 0 && prefix.len() <= s.len() && s.subrange(0, prefix.len() as int) == prefix {
        trim_leading(s.subrange(prefix.len() as int, s.len() as int), prefix)
    } else {
        s
    }
}

/// The API base URL of a GitLab instance.
pub open spec fn api_url_of(base_url: Seq<char>) -> Seq<char> {
    trim_trailing_slashes(base_url) + "/api/v4"@
}

/// The host of an API URL: without leading `https://` and `http://`, up to
/// the first `/`.
pub open spec fn api_host_of(api_url: Seq<char>) -> Seq<char> {
    let rest = trim_leading(trim_leading(api_url, "https://"@), "http://"@);
    match find_from(rest, "/"@, 0) {
        Some(j) => rest.subrange(0, j),
        None => rest,
    }
}

/// A text `h/y`, with no `/` in `h` and `y` not starting with `/`, does not
/// start with a scheme prefix `p` whose first `/` (at `k`) is doubled.
proof fn lemma_no_scheme_prefix(h: Seq<char>, y: Seq<char>, p: Seq<char>, k: int)
    requires
        0 <= k,
        k + 1 < p.len(),
        p[k] == '/',
        p[k + 1] == '/',
        forall|i: int| 0 <= i < k ==> p[i] != '/',
        forall|i: int| 0 <= i < h.len() ==> h[i] != '/',
        y.len() > 0,
        y[0] != '/',
    ensures
        !(p.len() <= (h + "/"@ + y).len() && (h + "/"@ + y).subrange(0, p.len() as int) == p),
{
    reveal_strlit("/");
    let x = h + "/"@ + y;
    if p.len() <= x.len() && x.subrange(0, p.len() as int) == p {
        if h.len() < k {
            assert(x[h.len() as int] == x.subrange(0, p.len() as int)[h.len() as int]);
        } else if h.len() == k {
            assert(x[k + 1] == y[0]);
            assert(x[k + 1] == x.subrange(0, p.len() as int)[k + 1]);
        } else {
            assert(x[k] == h[k]);
            assert(x[k] == x.subrange(0, p.len() as int)[k]);
        }
    }
}

/// The client of an instance `scheme://host`, with or without a trailing `/`,
/// reads `host` back from its API URL, so `scheme://` and that host give the
/// base URL again.
pub proof fn lemma_api_host_round_trip(scheme: Seq<char>, host: Seq<char>, trailing_slash: bool)
    requires
        scheme == "https"@ || scheme == "http"@,
        host.len() > 0,
        forall|i: int| 0 <= i < host.len() ==> host[i] != '/',
    ensures
        api_host_of(
            api_url_of(
                scheme + "://"@ + host + if trailing_slash {
                    "/"@
                } else {
                    Seq::<char>::empty()
                },
            ),
        ) == host,
{
    reveal_strlit("https");
    reveal_strlit("http");
    reveal_strlit("://");
    reveal_strlit("/");
    reveal_strlit("https://");
    reveal_strlit("http://");
    reveal_strlit("/api/v4");
    let base = scheme + "://"@ + host;
    let given = base + if trailing_slash {
        "/"@
    } else {
        Seq::<char>::empty()
    };
    assert(base.last() == host[host.len() - 1]);
    assert(base.last() != '/');
    assert(trim_trailing_slashes(base) == base);
    if trailing_slash {
        assert(given.drop_last() =~= base);
        assert(given.last() == '/');
    } else {
        assert(given =~= base);
    }
    assert(trim_trailing_slashes(given) == base);
    let y: Seq<char> = "api/v4"@;
    reveal_strlit("api/v4");
    let rest = host + "/"@ + y;
    assert(api_url_of(given) =~= scheme + "://"@ + rest);
    let hs: Seq<char> = "https://"@;
    let h: Seq<char> = "http://"@;
    lemma_no_scheme_prefix(host, y, hs, 6);
    lemma_no_scheme_prefix(host, y, h, 5);
    assert(trim_leading(rest, hs) == rest);
    assert(trim_leading(rest, h) == rest);
    let a = api_url_of(given);
    if scheme == "https"@ {
        assert(a.subrange(0, 8) =~= hs);
        assert(a.subrange(8, a.len() as int) =~= rest);
        assert(trim_leading(a, hs) == rest);
    } else {
        assert(a[4] != hs[4]);
        assert(a.subrange(0, 8)[4] == a[4]);
        assert(trim_leading(a, hs) == a);
        assert(a.subrange(0, 7) =~= h);
        assert(a.subrange(7, a.len() as int) =~= rest);
        assert(trim_leading(a, h) == rest);
    }
    assert forall|j: int| 0 <= j < host.len() implies !#[trigger] crate::text::occurs_at(
        rest,
        "/"@,
        j,
    ) by {
        assert(rest[j] == host[j]);
        assert(rest.subrange(j, j + 1)[0] == rest[j]);
    }
    assert(rest.subrange(host.len() as int, host.len() as int + 1) =~= "/"@);
    crate::text::lemma_find_from_first(rest, "/"@, 0, host.len() as int);
    assert(rest.subrange(0, host.len() as int) =~= host);
}

/// A text without every trailing `/`.
fn without_trailing_slashes(s: &str) -> (r: &str)
    ensures
        r@ == trim_trailing_slashes(s@),
{
    let mut n = s.unicode_len();
    assert(s@.subrange(0, n as int) =~= s@);
    while n > 0 && s.get_char(n - 1) == '/'
        invariant
            n <= s@.len(),
            trim_trailing_slashes(s@) == trim_trailing_slashes(s@.subrange(0, n as int)),
        decreases n,
    {
        assert(s@.subrange(0, n as int).drop_last() =~= s@.subrange(0, n - 1));
        n = n - 1;
    }
    s.substring_char(0, n)
}

/// A text without every leading copy of `prefix`.
fn without_leading<'a>(s: &'a str, prefix: &str) -> (r: &'a str)
    ensures
        r@ == trim_leading(s@, prefix@),
{
    let n = s.unicode_len();
    let m = prefix.unicode_len();
    if m == 0 {
        return s;
    }
    let mut i: usize = 0;
    assert(s@.subrange(0, n as int) =~= s@);
    while m <= n - i && occurs_at_exec(s, prefix, i)
        invariant
            n == s@.len(),
            m == prefix@.len(),
            0 < m,
            i <= n,
            trim_leading(s@, prefix@) == trim_leading(s@.subrange(i as int, n as int), prefix@),
        decreases n - i,
    {
        let ghost rest = s@.subrange(i as int, n as int);
        assert(rest.subrange(0, m as int) =~= s@.subrange(i as int, i + m));
        assert(rest.subrange(m as int, rest.len() as int) =~= s@.subrange(i + m, n as int));
        i = i + m;
    }
    proof {
        let rest = s@.subrange(i as int, n as int);
        if m <= n - i {
            assert(rest.subrange(0, m as int) =~= s@.subrange(i as int, i + m));
        }
    }
    s.substring_char(i, n)
}

/// A GitLab API client's state: the API base URL and, once verified, the
/// credential.
pub struct GitLabClient {
    base_url: String,
    api_url: String,
    token: Option<String>,
}

impl GitLabClient {
    /// The API base URL.
    pub closed spec fn api(&self) -> Seq<char> {
        self.api_url@
    }

    /// Where a personal access token can be made on this instance.
    pub closed spec fn token_page(&self) -> Seq<char> {
        self.base_url@ + "/-/profile/personal_access_tokens"@
    }

    /// The credential held, if any.
    pub closed spec fn credential(&self) -> Option<String> {
        self.token
    }

    /// A client for the GitLab instance at `base_url`, holding no credential.
    pub fn new(base_url: &str) -> (r: GitLabClient)
        ensures
            r.api() == api_url_of(base_url@),
            r.token_page() == trim_trailing_slashes(base_url@) + "/-/profile/personal_access_tokens"@,
            r.credential() is None,
    {
        let base = String::from_str(without_trailing_slashes(base_url));
        let mut api_url = copy_string(&base);
        api_url.append("/api/v4");
        GitLabClient { base_url: base, api_url, token: None }
    }

    /// Where a personal access token can be made on this instance.
    pub fn token_page_url(&self) -> (r: String)
        ensures
            r@ == self.token_page(),
    {
        let mut u = copy_string(&self.base_url);
        u.append("/-/profile/personal_access_tokens");
        u
    }

    /// The error that no credential is available, naming where to make one.
    pub(crate) fn no_token(&self) -> (r: GitLabError)
        ensures
            r matches GitLabError::NoTokenAvailable { create_url } && create_url@ == self.token_page(),
    {
        GitLabError::NoTokenAvailable { create_url: self.token_page_url() }
    }

    /// Stores a credential, such as one restored from saved metadata.
    pub fn set_token(&mut self, token: String)
        ensures
            final(self).credential() == Some(token),
            final(self).api() == old(self).api(),
            final(self).token_page() == old(self).token_page(),
    {
        self.token = Some(token);
    }

    /// The credential held, if any, by reference.
    pub(crate) fn token_ref(&self) -> (r: &Option<String>)
        ensures
            *r == self.credential(),
    {
        &self.token
    }

    /// Drops the credential held.
    pub(crate) fn clear_token(&mut self)
        ensures
            final(self).credential() is None,
            final(self).api() == old(self).api(),
            final(self).token_page() == old(self).token_page(),
    {
        self.token = None;
    }

    /// The credential held, if any.
    pub fn get_token(&self) -> (r: Option<&str>)
        ensures
            match self.credential() {
                Some(t) => r matches Some(s) && s@ == t@,
                None => r is None,
            },
    {
        match &self.token {
            Some(t) => Some(t.as_str()),
            None => None,
        }
    }

    /// Whether a credential is held.
    pub fn is_authenticated(&self) -> (r: bool)
        ensures
            r == self.credential() is Some,
    {
        self.token.is_some()
    }

    /// The API base URL.
    pub fn api_url(&self) -> (r: &str)
        ensures
            r@ == self.api(),
    {
        self.api_url.as_str()
    }

    /// The host of the API base URL.
    pub fn extract_host_from_api_url(&self) -> (r: &str)
        ensures
            r@ == api_host_of(self.api()),
    {
        let rest = without_leading(without_leading(self.api_url.as_str(), "https://"), "http://");
        match find_str_from(rest, "/", 0) {
            Some(j) => {
                proof {
                    lemma_find_from(rest@, "/"@, 0);
                }
                rest.substring_char(0, j)
            },
            None => rest,
        }
    }

    /// The identity endpoint.
    pub fn user_url(&self) -> (r: String)
        ensures
            r@ == self.api() + "/user"@,
    {
        let mut u = copy_string(&self.api_url);
        u.append("/user");
        u
    }

    /// The token-introspection endpoint.
    pub fn token_info_url(&self) -> (r: String)
        ensures
            r@ == self.api() + "/personal_access_tokens/self"@,
    {
        let mut u = copy_string(&self.api_url);
        u.append("/personal_access_tokens/self");
        u
    }

    /// The review-collection endpoint of a project, whose path is
    /// percent-encoded as one unit.
    pub fn merge_requests_url(&self, project_path: &str) -> (r: String)
        ensures
            r@ == self.api() + "/projects/"@ + percent_encoded(project_path.spec_bytes())
                + "/merge_requests"@,
    {
        let mut u = copy_string(&self.api_url);
        u.append("/projects/");
        let encoded = url_encode(project_path);
        u.append(encoded.as_str());
        u.append("/merge_requests");
        u
    }

    /// The endpoint of merge request `iid` of a project.
    pub fn merge_request_url(&self, project_path: &str, iid: u64) -> (r: String)
        ensures
            r@ == self.api() + "/projects/"@ + percent_encoded(project_path.spec_bytes())
                + "/merge_requests/"@ + decimal(iid as nat),
    {
        let mut u = self.merge_requests_url(project_path);
        u.append("/");
        push_decimal(&mut u, iid);
        proof {
            reveal_strlit("/merge_requests");
            reveal_strlit("/merge_requests/");
            reveal_strlit("/");
        }
        assert(u@ =~= self.api() + "/projects/"@ + percent_encoded(project_path.spec_bytes())
            + "/merge_requests/"@ + decimal(iid as nat));
        u
    }

    /// The endpoint and body of a merge-request creation; the body holds the
    /// description only when one is given. A client without a credential
    /// cannot send it.
    pub fn prepare_create_merge_request(
        &self,
        project_path: &str,
        source_branch: &str,
        target_branch: &str,
        title: &str,
        description: Option<&str>,
        draft: bool,
    ) -> (r: Result<(String, CreateMergeRequestParams), GitLabError>)
        ensures
            self.credential() is None ==> (r matches Err(GitLabError::NoTokenAvailable { create_url })
                && create_url@ == self.token_page()),
            self.credential() is Some ==> (r matches Ok((url, p)) && url@ == self.api()
                + "/projects/"@ + percent_encoded(project_path.spec_bytes()) + "/merge_requests"@
                && p.source_branch@ == source_branch@ && p.target_branch@ == target_branch@
                && p.title@ == title@ && p.draft == Some(draft) && match description {
                Some(d) => p.description matches Some(pd) && pd@ == d@,
                None => p.description is None,
            }),
    {
        if self.token.is_none() {
            return Err(self.no_token());
        }
        let url = self.merge_requests_url(project_path);
        let description = match description {
            Some(d) => Some(String::from_str(d)),
            None => None,
        };
        let params = CreateMergeRequestParams {
            source_branch: String::from_str(source_branch),
            target_branch: String::from_str(target_branch),
            title: String::from_str(title),
            description,
            draft: Some(draft),
        };
        Ok((url, params))
    }

    /// The endpoint of a merge-request update; a client without a credential
    /// cannot send it.
    pub fn prepare_update_merge_request(&self, project_path: &str, mr_iid: u64) -> (r: Result<
        String,
        GitLabError,
    >)
        ensures
            self.credential() is None ==> (r matches Err(GitLabError::NoTokenAvailable { create_url })
                && create_url@ == self.token_page()),
            self.credential() is Some ==> (r matches Ok(url) && url@ == self.api() + "/projects/"@
                + percent_encoded(project_path.spec_bytes()) + "/merge_requests/"@ + decimal(
                mr_iid as nat,
            )),
    {
        if self.token.is_none() {
            return Err(self.no_token());
        }
        Ok(self.merge_request_url(project_path, mr_iid))
    }

    /// The endpoint for fetching a merge request; a client without a
    /// credential cannot send it.
    pub fn prepare_get_merge_request(&self, project_path: &str, mr_iid: u64) -> (r: Result<
        String,
        GitLabError,
    >)
        ensures
            self.credential() is None ==> (r matches Err(GitLabError::NoTokenAvailable { create_url })
                && create_url@ == self.token_page()),
            self.credential() is Some ==> (r matches Ok(url) && url@ == self.api() + "/projects/"@
                + percent_encoded(project_path.spec_bytes()) + "/merge_requests/"@ + decimal(
                mr_iid as nat,
            )),
    {
        if self.token.is_none() {
            return Err(self.no_token());
        }
        Ok(self.merge_request_url(project_path, mr_iid))
    }
}

} // verus!
