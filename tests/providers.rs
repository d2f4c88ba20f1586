use basalt::error::Error;
use basalt::providers::github::GitHubProvider;
use basalt::providers::gitlab::GitLabProvider;
use basalt::providers::mock::MockProvider;
use basalt::providers::{
    auth_status_verdict, cli_probe_verdict, create_provider, format_review_id, review_number,
    CliProbe, CreateReviewParams, Provider, ProviderType, ReviewState, UpdateReviewParams,
};
use basalt::repo::environment::check_provider_prerequisites;

fn probe(launched: bool, succeeded: bool, stdout: &str) -> CliProbe {
    CliProbe {
        launched,
        succeeded,
        exit_code: if succeeded { 0 } else { 1 },
        stdout: stdout.to_string(),
        stderr: "boom".to_string(),
    }
}

#[test]
fn test_provider_type_from_str() {
    assert_eq!(ProviderType::from_str("gitlab").unwrap(), ProviderType::GitLab);
    assert_eq!(ProviderType::from_str("GitLab").unwrap(), ProviderType::GitLab);
    assert_eq!(ProviderType::from_str("github").unwrap(), ProviderType::GitHub);
    assert_eq!(ProviderType::from_str("GitHub").unwrap(), ProviderType::GitHub);
    assert!(ProviderType::from_str("unknown").is_err());
}

#[test]
fn test_provider_type_from_remote_url() {
    assert_eq!(
        ProviderType::from_remote_url("https://gitlab.com/user/repo.git").unwrap(),
        ProviderType::GitLab
    );
    assert_eq!(
        ProviderType::from_remote_url("git@gitlab.com:user/repo.git").unwrap(),
        ProviderType::GitLab
    );
    assert_eq!(
        ProviderType::from_remote_url("https://gitlab.example.com/user/repo.git").unwrap(),
        ProviderType::GitLab
    );
    assert_eq!(
        ProviderType::from_remote_url("https://github.com/user/repo.git").unwrap(),
        ProviderType::GitHub
    );
    assert_eq!(
        ProviderType::from_remote_url("git@github.com:user/repo.git").unwrap(),
        ProviderType::GitHub
    );
    assert!(ProviderType::from_remote_url("https://example.com/repo.git").is_err());
}

#[test]
fn test_provider_cli_name() {
    let gitlab = MockProvider::new_gitlab();
    let github = MockProvider::new_github();
    assert_eq!(gitlab.cli_name(), "glab");
    assert_eq!(github.cli_name(), "gh");
}

#[test]
fn test_provider_type_display() {
    assert_eq!(ProviderType::GitLab.to_string(), "GitLab");
    assert_eq!(ProviderType::GitHub.to_string(), "GitHub");
}

#[test]
fn test_review_state_display() {
    assert_eq!(ReviewState::Open.to_string(), "open");
    assert_eq!(ReviewState::Merged.to_string(), "merged");
    assert_eq!(ReviewState::Closed.to_string(), "closed");
}

#[test]
fn github_test_provider_type() {
    let provider = GitHubProvider::new();
    assert_eq!(provider.provider_type(), ProviderType::GitHub);
}

#[test]
fn gitlab_test_provider_type() {
    let provider = GitLabProvider::new();
    assert_eq!(provider.provider_type(), ProviderType::GitLab);
}

#[test]
fn parse_is_case_insensitive_and_names_the_bad_input() {
    let a = ProviderType::from_str("GitLab").unwrap();
    let b = ProviderType::from_str("gitlab").unwrap();
    assert_eq!(a, b);
    assert_eq!(ProviderType::from_str("GITHUB").unwrap(), ProviderType::GitHub);
    match ProviderType::from_str("bogus") {
        Err(Error::UnknownProvider { provider }) => assert_eq!(provider, "bogus"),
        other => panic!("unexpected {:?}", other),
    }
}

#[test]
fn lowercase_name_lookup() {
    assert_eq!(ProviderType::from_lowercase_name("gitlab"), Some(ProviderType::GitLab));
    assert_eq!(ProviderType::from_lowercase_name("github"), Some(ProviderType::GitHub));
    assert_eq!(ProviderType::from_lowercase_name("GitLab"), None);
}

#[test]
fn detection_reads_the_host_only() {
    match ProviderType::from_remote_url("https://example.com/gitlab/repo.git") {
        Err(Error::ProviderDetectionFailed { remote_url }) => {
            assert_eq!(remote_url, "https://example.com/gitlab/repo.git")
        }
        other => panic!("unexpected {:?}", other),
    }
    assert!(ProviderType::from_remote_url("not a url").is_err());
    assert_eq!(
        ProviderType::from_remote_url("ssh-user@code.gitlab.internal:team/app").unwrap(),
        ProviderType::GitLab
    );
}

#[test]
fn provider_hints() {
    assert_eq!(ProviderType::GitLab.install_url(), "https://gitlab.com/gitlab-org/cli");
    assert_eq!(ProviderType::GitHub.install_url(), "https://cli.github.com/");
    assert_eq!(ProviderType::GitLab.auth_command(), "glab auth login");
    assert_eq!(ProviderType::GitHub.auth_command(), "gh auth login");
}

#[test]
fn stub_providers_report_not_implemented() {
    let mut p = create_provider(ProviderType::GitLab);
    assert_eq!(p.provider_type(), ProviderType::GitLab);
    match p.get_review("!1") {
        Err(Error::ProviderOperationFailed { message }) => assert!(message.contains("not yet implemented")),
        other => panic!("unexpected {:?}", other),
    }
    let p = create_provider(ProviderType::GitHub);
    assert!(p.find_review_for_branch("feature").is_err());
}

#[test]
fn cli_probes_decide_availability_and_login() {
    assert!(cli_probe_verdict(ProviderType::GitLab, &probe(true, true, "")).is_ok());
    match cli_probe_verdict(ProviderType::GitLab, &probe(false, false, "")) {
        Err(Error::ProviderCliNotFound { provider, cli_name, install_url }) => {
            assert_eq!(provider, "GitLab");
            assert_eq!(cli_name, "glab");
            assert_eq!(install_url, "https://gitlab.com/gitlab-org/cli");
        }
        other => panic!("unexpected {:?}", other),
    }
    assert!(auth_status_verdict(ProviderType::GitLab, &probe(true, true, "Active account: me")).is_ok());
    assert!(auth_status_verdict(ProviderType::GitHub, &probe(true, true, "\u{2713} ok")).is_ok());
    assert!(auth_status_verdict(ProviderType::GitHub, &probe(true, true, "Logged in to github.com")).is_ok());
    match auth_status_verdict(ProviderType::GitHub, &probe(true, true, "nobody")) {
        Err(Error::ProviderAuthRequired { provider, auth_command }) => {
            assert_eq!(provider, "GitHub");
            assert_eq!(auth_command, "gh auth login");
        }
        other => panic!("unexpected {:?}", other),
    }
    match auth_status_verdict(ProviderType::GitLab, &probe(true, false, "")) {
        Err(Error::CommandFailed { command, exit_code, stderr }) => {
            assert_eq!(command, "glab auth status");
            assert_eq!(exit_code, 1);
            assert_eq!(stderr, "boom");
        }
        other => panic!("unexpected {:?}", other),
    }
}

#[test]
fn review_numbers_round_trip() {
    assert_eq!(format_review_id(ProviderType::GitLab, 42), "!42");
    assert_eq!(format_review_id(ProviderType::GitHub, 7), "7");
    assert_eq!(format_review_id(ProviderType::GitHub, 0), "0");
    assert_eq!(review_number("!42").unwrap(), 42);
    assert_eq!(review_number("456").unwrap(), 456);
    assert_eq!(review_number(&format_review_id(ProviderType::GitLab, u64::MAX)).unwrap(), u64::MAX);
    for bad in ["", "!", "abc", "!4x2", "-1", "18446744073709551616", "!!1"] {
        match review_number(bad) {
            Err(Error::InvalidReviewId { id }) => assert_eq!(id, bad),
            other => panic!("unexpected {:?} for {}", other, bad),
        }
    }
}

#[test]
fn error_constructors_keep_the_message() {
    match Error::git("g") {
        Error::Git { message } => assert_eq!(message, "g"),
        other => panic!("unexpected {:?}", other),
    }
    match Error::metadata("m") {
        Error::Metadata { message } => assert_eq!(message, "m"),
        other => panic!("unexpected {:?}", other),
    }
    match Error::config("c") {
        Error::Config { message } => assert_eq!(message, "c"),
        other => panic!("unexpected {:?}", other),
    }
    match Error::provider_op("p") {
        Error::ProviderOperationFailed { message } => assert_eq!(message, "p"),
        other => panic!("unexpected {:?}", other),
    }
    match Error::invalid_stack("s") {
        Error::InvalidStack { message } => assert_eq!(message, "s"),
        other => panic!("unexpected {:?}", other),
    }
    match Error::other("o") {
        Error::Other(message) => assert_eq!(message, "o"),
        other => panic!("unexpected {:?}", other),
    }
}

#[test]
fn stubs_fail_every_review_operation() {
    for kind in [ProviderType::GitLab, ProviderType::GitHub] {
        let mut p = create_provider(kind);
        let c = CreateReviewParams {
            source_branch: "f".to_string(),
            target_branch: "main".to_string(),
            title: "t".to_string(),
            description: "d".to_string(),
            draft: false,
        };
        let u = UpdateReviewParams {
            review_id: "1".to_string(),
            title: None,
            description: None,
            target_branch: None,
            draft: None,
        };
        assert!(matches!(p.create_review(c), Err(Error::ProviderOperationFailed { .. })));
        assert!(matches!(p.update_review(u), Err(Error::ProviderOperationFailed { .. })));
        assert!(matches!(p.get_review("1"), Err(Error::ProviderOperationFailed { .. })));
        assert!(matches!(p.find_review_for_branch("f"), Err(Error::ProviderOperationFailed { .. })));
    }
}

#[test]
fn prerequisites_stop_at_the_first_failing_check() {
    let mut mock = MockProvider::new_gitlab();
    let any = probe(false, false, "");
    assert!(check_provider_prerequisites(&mock, &any, &any).is_ok());
    mock.set_authenticated(false);
    assert!(matches!(
        check_provider_prerequisites(&mock, &any, &any),
        Err(Error::ProviderAuthRequired { .. })
    ));
    mock.set_cli_available(false);
    assert!(matches!(
        check_provider_prerequisites(&mock, &any, &any),
        Err(Error::ProviderCliNotFound { .. })
    ));
    let gitlab = GitLabProvider::new();
    assert!(check_provider_prerequisites(&gitlab, &probe(true, true, ""), &probe(true, true, "Logged in")).is_ok());
    assert!(matches!(
        check_provider_prerequisites(&gitlab, &probe(false, false, ""), &probe(true, true, "Logged in")),
        Err(Error::ProviderCliNotFound { .. })
    ));
}
