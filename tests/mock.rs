use basalt::providers::mock::MockProvider;
use basalt::providers::{CreateReviewParams, Provider, ProviderType, ReviewState, UpdateReviewParams};

fn params(source: &str, title: &str, description: &str, draft: bool) -> CreateReviewParams {
    CreateReviewParams {
        source_branch: source.to_string(),
        target_branch: "main".to_string(),
        title: title.to_string(),
        description: description.to_string(),
        draft,
    }
}

#[test]
fn test_mock_provider_creation() {
    let provider = MockProvider::new_gitlab();
    assert_eq!(provider.provider_type(), ProviderType::GitLab);

    let provider = MockProvider::new_github();
    assert_eq!(provider.provider_type(), ProviderType::GitHub);
}

#[test]
fn test_cli_available() {
    let mut provider = MockProvider::new_gitlab();
    assert!(provider.check_cli_available().is_ok());

    provider.set_cli_available(false);
    assert!(provider.check_cli_available().is_err());
}

#[test]
fn test_authentication() {
    let mut provider = MockProvider::new_gitlab();
    assert!(provider.check_authentication().is_ok());

    provider.set_authenticated(false);
    assert!(provider.check_authentication().is_err());
}

#[test]
fn test_create_review_gitlab() {
    let mut provider = MockProvider::new_gitlab();

    let params = CreateReviewParams {
        source_branch: "feature".to_string(),
        target_branch: "main".to_string(),
        title: "Test MR".to_string(),
        description: "Test description".to_string(),
        draft: true,
    };

    let review = provider.create_review(params).unwrap();
    assert_eq!(review.id, "!1");
    assert_eq!(review.title, "Test MR");
    assert_eq!(review.source_branch, "feature");
    assert_eq!(review.target_branch, "main");
    assert!(review.draft);
    assert_eq!(review.state, ReviewState::Open);
    assert!(review.url.contains("gitlab.com"));
}

#[test]
fn test_create_review_github() {
    let mut provider = MockProvider::new_github();

    let params = CreateReviewParams {
        source_branch: "feature".to_string(),
        target_branch: "main".to_string(),
        title: "Test PR".to_string(),
        description: "Test description".to_string(),
        draft: false,
    };

    let review = provider.create_review(params).unwrap();
    assert_eq!(review.id, "1");
    assert!(review.url.contains("github.com"));
}

#[test]
fn test_update_review() {
    let mut provider = MockProvider::new_gitlab();

    let params = CreateReviewParams {
        source_branch: "feature".to_string(),
        target_branch: "main".to_string(),
        title: "Original Title".to_string(),
        description: "Original description".to_string(),
        draft: true,
    };

    let review = provider.create_review(params).unwrap();
    let review_id = review.id.clone();

    let update_params = UpdateReviewParams {
        review_id: review_id.clone(),
        title: Some("Updated Title".to_string()),
        description: None,
        target_branch: None,
        draft: Some(false),
    };

    let updated = provider.update_review(update_params).unwrap();
    assert_eq!(updated.title, "Updated Title");
    assert_eq!(updated.description, "Original description");
    assert!(!updated.draft);
}

#[test]
fn test_get_review() {
    let mut provider = MockProvider::new_gitlab();

    let params = CreateReviewParams {
        source_branch: "feature".to_string(),
        target_branch: "main".to_string(),
        title: "Test MR".to_string(),
        description: "Test description".to_string(),
        draft: true,
    };

    let created = provider.create_review(params).unwrap();
    let fetched = provider.get_review(&created.id).unwrap();

    assert_eq!(created.id, fetched.id);
    assert_eq!(created.title, fetched.title);
}

#[test]
fn test_find_review_for_branch() {
    let mut provider = MockProvider::new_gitlab();

    let params = CreateReviewParams {
        source_branch: "feature".to_string(),
        target_branch: "main".to_string(),
        title: "Test MR".to_string(),
        description: "Test description".to_string(),
        draft: true,
    };

    let created = provider.create_review(params).unwrap();

    let found = provider.find_review_for_branch("feature").unwrap().unwrap();
    assert_eq!(found.id, created.id);

    let not_found = provider.find_review_for_branch("nonexistent").unwrap();
    assert!(not_found.is_none());
}

#[test]
fn test_simulated_failures() {
    let mut provider = MockProvider::new_gitlab();

    provider.fail_next_create();
    let params = CreateReviewParams {
        source_branch: "feature".to_string(),
        target_branch: "main".to_string(),
        title: "Test MR".to_string(),
        description: "Test description".to_string(),
        draft: true,
    };
    assert!(provider.create_review(params).is_err());
}

#[test]
fn test_clear_reviews() {
    let mut provider = MockProvider::new_gitlab();

    let params = CreateReviewParams {
        source_branch: "feature".to_string(),
        target_branch: "main".to_string(),
        title: "Test MR".to_string(),
        description: "Test description".to_string(),
        draft: true,
    };

    provider.create_review(params).unwrap();
    assert_eq!(provider.review_count(), 1);

    provider.clear_reviews();
    assert_eq!(provider.review_count(), 0);
}

#[test]
fn test_multiple_reviews_increment_id() {
    let mut provider = MockProvider::new_gitlab();

    let params1 = CreateReviewParams {
        source_branch: "feature-1".to_string(),
        target_branch: "main".to_string(),
        title: "First MR".to_string(),
        description: "First description".to_string(),
        draft: true,
    };

    let params2 = CreateReviewParams {
        source_branch: "feature-2".to_string(),
        target_branch: "main".to_string(),
        title: "Second MR".to_string(),
        description: "Second description".to_string(),
        draft: true,
    };

    let review1 = provider.create_review(params1).unwrap();
    let review2 = provider.create_review(params2).unwrap();

    assert_eq!(review1.id, "!1");
    assert_eq!(review2.id, "!2");
}

#[test]
fn three_creations_number_one_two_three() {
    let mut provider = MockProvider::new_gitlab();
    let ids: Vec<String> = (0..3)
        .map(|i| provider.create_review(params(&format!("b{}", i), "t", "d", false)).unwrap().id)
        .collect();
    assert_eq!(ids, vec!["!1", "!2", "!3"]);
    let mut github = MockProvider::new_github();
    let r = github.create_review(params("x", "t", "d", false)).unwrap();
    assert_eq!(r.id, "1");
    assert_eq!(r.url, "https://github.com/mock/repo/pull/1");
    let r = provider.create_review(params("x", "t", "d", false)).unwrap();
    assert_eq!(r.url, "https://gitlab.com/mock/repo/-/merge_requests/4");
}

#[test]
fn lifecycle_create_get_update_find() {
    let mut provider = MockProvider::new_gitlab();
    let created = provider.create_review(params("feature", "T", "D", true)).unwrap();
    let fetched = provider.get_review(&created.id).unwrap();
    assert_eq!(format!("{:?}", created), format!("{:?}", fetched));

    let updated = provider
        .update_review(UpdateReviewParams {
            review_id: created.id.clone(),
            title: Some("New".to_string()),
            description: None,
            target_branch: None,
            draft: None,
        })
        .unwrap();
    assert_eq!(updated.title, "New");
    assert_eq!(updated.description, "D");
    assert_eq!(updated.target_branch, "main");
    assert!(updated.draft);

    let second = provider.create_review(params("feature", "Again", "D2", false)).unwrap();
    let found = provider.find_review_for_branch("feature").unwrap().unwrap();
    assert_eq!(found.id, second.id);
    assert!(provider.find_review_for_branch("feature-x").unwrap().is_none());
    let all = provider.get_all_reviews();
    assert_eq!(all.len(), 2);
    assert_eq!(all[0].title, "New");
    assert_eq!(all[1].id, "!2");
}

#[test]
fn failures_happen_once_and_unknown_ids_are_not_found() {
    let mut provider = MockProvider::new_gitlab();
    provider.fail_next_create();
    assert!(provider.create_review(params("a", "t", "d", false)).is_err());
    let r = provider.create_review(params("a", "t", "d", false)).unwrap();
    assert_eq!(r.id, "!1");

    provider.fail_next_get();
    assert!(provider.get_review("!1").is_err());
    assert!(provider.get_review("!1").is_ok());

    provider.fail_next_update();
    let upd = UpdateReviewParams {
        review_id: "!1".to_string(),
        title: None,
        description: None,
        target_branch: Some("dev".to_string()),
        draft: None,
    };
    assert!(provider.update_review(upd.clone()).is_err());
    assert_eq!(provider.update_review(upd).unwrap().target_branch, "dev");

    match provider.get_review("!9") {
        Err(basalt::error::Error::ReviewNotFound { branch }) => assert_eq!(branch, "!9"),
        other => panic!("unexpected {:?}", other),
    }
    provider.clear_reviews();
    assert_eq!(provider.create_review(params("a", "t", "d", false)).unwrap().id, "!1");
}

#[test]
fn mock_through_the_interface() {
    let mut provider: Box<dyn Provider> = Box::new(MockProvider::new_github());
    let probe = basalt::providers::CliProbe {
        launched: false,
        succeeded: false,
        exit_code: -1,
        stdout: String::new(),
        stderr: String::new(),
    };
    assert!(provider.check_cli_available(&probe).is_ok());
    assert!(provider.check_authentication(&probe).is_ok());
    let r = provider.create_review(params("f", "t", "d", false)).unwrap();
    assert_eq!(provider.get_review(&r.id).unwrap().title, "t");
    assert_eq!(provider.auth_command(), "gh auth login");
    assert_eq!(provider.install_url(), "https://cli.github.com/");
}
