use basalt::providers::gitlab_api::{
    get_merge_request_reply, identity_reply, merge_request_reply, scope_reply, GitLabClient,
    GitLabError, GitLabToken, GitLabUser, MergeRequest,
};
use basalt::providers::gitlab_auth::{
    credential_request, is_cli_login_choice, password_from_credential_output, token_for_host,
    token_from_input, AuthEvent, AuthStep, HostToken,
};
use basalt::providers::{ProviderType, ReviewState};

fn token_info(scopes: &[&str], active: bool) -> GitLabToken {
    GitLabToken { scopes: scopes.iter().map(|s| s.to_string()).collect(), active }
}

fn user() -> GitLabUser {
    GitLabUser { id: 7, username: "me".to_string(), name: "Me".to_string() }
}

fn mr(iid: u64, state: &str, description: Option<&str>) -> MergeRequest {
    MergeRequest {
        iid,
        id: 1000 + iid,
        title: "T".to_string(),
        description: description.map(|d| d.to_string()),
        state: state.to_string(),
        web_url: format!("https://gitlab.com/g/p/-/merge_requests/{}", iid),
        source_branch: "feature".to_string(),
        target_branch: "main".to_string(),
        draft: true,
    }
}

fn scope_event(status: u16, info: GitLabToken) -> AuthEvent {
    AuthEvent::ScopeReply { status, body: String::new(), decoded: Ok(info) }
}

fn identity_event(status: u16) -> AuthEvent {
    AuthEvent::IdentityReply { status, body: "nope".to_string(), decoded: Ok(user()) }
}

#[test]
fn test_client_creation() {
    let client = GitLabClient::new("https://gitlab.com");
    assert_eq!(client.api_url(), "https://gitlab.com/api/v4");
    assert!(client.get_token().is_none());
}

#[test]
fn test_extract_host() {
    let client = GitLabClient::new("https://gitlab.com");
    assert_eq!(client.extract_host_from_api_url(), "gitlab.com");

    let client = GitLabClient::new("https://gitlab.example.com");
    assert_eq!(client.extract_host_from_api_url(), "gitlab.example.com");
}

#[test]
fn test_api_url_normalization() {
    let client = GitLabClient::new("https://gitlab.com/");
    assert_eq!(client.api_url(), "https://gitlab.com/api/v4");

    let client = GitLabClient::new("https://gitlab.com");
    assert_eq!(client.api_url(), "https://gitlab.com/api/v4");
}

#[test]
fn endpoints_encode_the_project_as_one_unit() {
    let mut client = GitLabClient::new("http://git.local//");
    assert_eq!(client.extract_host_from_api_url(), "git.local");
    assert_eq!(client.user_url(), "http://git.local/api/v4/user");
    assert_eq!(client.token_info_url(), "http://git.local/api/v4/personal_access_tokens/self");
    assert_eq!(
        client.merge_requests_url("grp/sub repo"),
        "http://git.local/api/v4/projects/grp%2Fsub%20repo/merge_requests"
    );
    assert_eq!(
        client.merge_request_url("a/b", 42),
        "http://git.local/api/v4/projects/a%2Fb/merge_requests/42"
    );
    match client.prepare_get_merge_request("a/b", 1) {
        Err(GitLabError::NoTokenAvailable { create_url }) => {
            assert_eq!(create_url, "http://git.local/-/profile/personal_access_tokens")
        }
        other => panic!("unexpected {:?}", other),
    }
    client.set_token("SECRET-REDACTED".to_string());
    assert!(client.is_authenticated());
    assert_eq!(
        client.prepare_update_merge_request("a/b", 3).unwrap(),
        "http://git.local/api/v4/projects/a%2Fb/merge_requests/3"
    );
    let (url, body) = client
        .prepare_create_merge_request("a/b", "feat", "main", "Title", None, true)
        .unwrap();
    assert_eq!(url, "http://git.local/api/v4/projects/a%2Fb/merge_requests");
    assert_eq!(body.source_branch, "feat");
    assert_eq!(body.target_branch, "main");
    assert_eq!(body.title, "Title");
    assert_eq!(body.description, None);
    assert_eq!(body.draft, Some(true));
}

#[test]
fn not_found_is_its_own_kind() {
    match get_merge_request_reply(42, 404, "{}".to_string(), Err("x".to_string())) {
        Err(GitLabError::MergeRequestNotFound(n)) => assert_eq!(n, 42),
        other => panic!("unexpected {:?}", other),
    }
    match get_merge_request_reply(42, 500, "oops".to_string(), Err("x".to_string())) {
        Err(GitLabError::ApiError { status, message }) => {
            assert_eq!(status, 500);
            assert_eq!(message, "oops");
        }
        other => panic!("unexpected {:?}", other),
    }
    assert_eq!(get_merge_request_reply(5, 200, String::new(), Ok(mr(5, "opened", None))).unwrap().iid, 5);
    assert!(matches!(
        merge_request_reply(201, String::new(), Err("bad json".to_string())),
        Err(GitLabError::JsonParseFailed(m)) if m == "bad json"
    ));
    assert!(matches!(
        merge_request_reply(422, "no".to_string(), Ok(mr(1, "opened", None))),
        Err(GitLabError::ApiError { status: 422, .. })
    ));
}

#[test]
fn scope_and_identity_replies() {
    assert!(scope_reply(200, String::new(), Ok(token_info(&["read_user", "api"], true))).is_ok());
    match scope_reply(200, String::new(), Ok(token_info(&["read_api"], true))) {
        Err(GitLabError::MissingScope { required }) => assert_eq!(required, "api"),
        other => panic!("unexpected {:?}", other),
    }
    assert!(matches!(
        scope_reply(200, String::new(), Ok(token_info(&["api"], false))),
        Err(GitLabError::AuthenticationFailed)
    ));
    assert!(matches!(
        scope_reply(401, String::new(), Ok(token_info(&["api"], true))),
        Err(GitLabError::AuthenticationFailed)
    ));
    assert!(matches!(
        scope_reply(503, "down".to_string(), Err(String::new())),
        Err(GitLabError::ApiError { status: 503, message }) if message == "down"
    ));
    assert_eq!(identity_reply(200, String::new(), Ok(user())).unwrap().username, "me");
    assert!(matches!(identity_reply(401, String::new(), Ok(user())), Err(GitLabError::AuthenticationFailed)));
}

#[test]
fn merge_request_as_review() {
    let r = mr(12, "merged", Some("desc")).to_review();
    assert_eq!(r.id, "!12");
    assert_eq!(r.url, "https://gitlab.com/g/p/-/merge_requests/12");
    assert_eq!(r.description, "desc");
    assert_eq!(r.state, ReviewState::Merged);
    assert_eq!(mr(1, "locked", None).to_review().state, ReviewState::Closed);
    assert_eq!(mr(1, "opened", None).to_review().description, "");
    assert_eq!(mr(1, "opened", None).to_review().state, ReviewState::Open);
    let _ = ProviderType::GitLab;
}

#[test]
fn config_token_ends_the_search() {
    let mut client = GitLabClient::new("https://gitlab.com");
    let mut auth = client.start_authentication();
    assert_eq!(auth.step(), AuthStep::ReadCliConfig);
    client.advance(&mut auth, AuthEvent::Candidate(Some("tok".to_string())));
    assert_eq!(auth.step(), AuthStep::CheckScopes);
    assert_eq!(auth.candidate(), Some("tok"));
    client.advance(&mut auth, scope_event(200, token_info(&["api"], true)));
    assert_eq!(auth.step(), AuthStep::CheckIdentity);
    assert!(!client.is_authenticated());
    client.advance(&mut auth, identity_event(200));
    assert_eq!(auth.step(), AuthStep::Finished);
    assert_eq!(client.get_token(), Some("tok"));
    assert_eq!(auth.outcome().unwrap().unwrap().id, 7);
}

#[test]
fn unscoped_credential_is_never_stored() {
    let mut client = GitLabClient::new("https://gitlab.com");
    let mut auth = client.start_authentication();
    client.advance(&mut auth, AuthEvent::Candidate(None));
    assert_eq!(auth.step(), AuthStep::AskCredentialHelper);
    client.advance(&mut auth, AuthEvent::Candidate(Some("weak".to_string())));
    client.advance(&mut auth, scope_event(200, token_info(&["read_api"], true)));
    assert_eq!(auth.step(), AuthStep::Finished);
    assert!(!client.is_authenticated());
    match auth.outcome() {
        Some(Err(GitLabError::MissingScope { required })) => assert_eq!(required, "api"),
        other => panic!("unexpected {:?}", other),
    }
}

#[test]
fn stored_credential_failing_is_dropped_and_search_restarts() {
    let mut client = GitLabClient::new("https://gitlab.com");
    client.set_token("old".to_string());
    let mut auth = client.start_authentication();
    assert_eq!(auth.step(), AuthStep::CheckStoredScopes);
    client.advance(&mut auth, scope_event(200, token_info(&["api"], true)));
    assert_eq!(auth.step(), AuthStep::CheckStoredIdentity);
    client.advance(&mut auth, identity_event(401));
    assert_eq!(auth.step(), AuthStep::ReadCliConfig);
    assert!(!client.is_authenticated());
    client.advance(&mut auth, AuthEvent::Candidate(None));
    client.advance(&mut auth, AuthEvent::Candidate(None));
    assert_eq!(auth.step(), AuthStep::CheckCliTool);
    client.advance(&mut auth, AuthEvent::CliTool(true));
    assert_eq!(auth.step(), AuthStep::AskLoginChoice);
    client.advance(&mut auth, AuthEvent::Choice(" 1\n".to_string()));
    assert_eq!(auth.step(), AuthStep::RunCliLogin);
    client.advance(&mut auth, AuthEvent::CliLogin(true));
    assert_eq!(auth.step(), AuthStep::ReadCliConfigAfterLogin);
    client.advance(&mut auth, AuthEvent::Candidate(None));
    assert_eq!(auth.step(), AuthStep::PromptForToken);
    client.advance(&mut auth, AuthEvent::Candidate(None));
    assert_eq!(auth.step(), AuthStep::Finished);
    match auth.outcome() {
        Some(Err(GitLabError::NoTokenAvailable { create_url })) => {
            assert_eq!(create_url, "https://gitlab.com/-/profile/personal_access_tokens")
        }
        other => panic!("unexpected {:?}", other),
    }
}

#[test]
fn stored_credential_that_works_is_kept() {
    let mut client = GitLabClient::new("https://gitlab.com");
    client.set_token("old".to_string());
    let mut auth = client.start_authentication();
    client.advance(&mut auth, scope_event(200, token_info(&["api"], true)));
    client.advance(&mut auth, identity_event(200));
    assert_eq!(auth.step(), AuthStep::Finished);
    assert_eq!(client.get_token(), Some("old"));
    let mut other = client.start_authentication();
    client.advance(&mut other, AuthEvent::RequestFailed("offline".to_string()));
    assert!(!client.is_authenticated());
    assert_eq!(other.step(), AuthStep::ReadCliConfig);
}

#[test]
fn choice_and_prompt_input() {
    assert!(is_cli_login_choice("1"));
    assert!(is_cli_login_choice("  1 \n"));
    assert!(!is_cli_login_choice("2"));
    assert!(!is_cli_login_choice("11"));
    assert_eq!(token_from_input("  abc \n"), Some("abc".to_string()));
    assert_eq!(token_from_input(" \n"), None);
    assert_eq!(token_from_input("\u{3000}\t tok\u{a0}"), Some("tok".to_string()));
}

#[test]
fn credential_helper_exchange() {
    assert_eq!(credential_request("gitlab.com"), "protocol=https\nhost=gitlab.com\n\n");
    assert_eq!(
        password_from_credential_output("protocol=https\nhost=h\nusername=u\npassword=p4ss\n"),
        Some("p4ss".to_string())
    );
    assert_eq!(password_from_credential_output("password=a\r\npassword=b\n"), Some("a".to_string()));
    assert_eq!(password_from_credential_output("username=u\npassword=last"), Some("last".to_string()));
    assert_eq!(password_from_credential_output("username=u\n"), None);
    assert_eq!(password_from_credential_output(""), None);
}

#[test]
fn config_lookup_by_host() {
    let entries = vec![
        HostToken { host: "gitlab.example.com".to_string(), token: "one".to_string() },
        HostToken { host: "gitlab.com".to_string(), token: "two".to_string() },
    ];
    assert_eq!(token_for_host(&entries, "gitlab.com"), Some("two".to_string()));
    assert_eq!(token_for_host(&entries, "github.com"), None);
}
