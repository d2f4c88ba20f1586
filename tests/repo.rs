use basalt::error::Error;
use basalt::providers::ProviderType;
use basalt::repo::environment::{
    check_basic_environment, check_stack_operation_environment, get_basalt_dir, join_path,
    require_clean_working_directory, require_initialized, require_no_rebase_in_progress,
};
use basalt::repo::git::{
    detect_default_branch, get_current_branch, get_repo_root, get_upstream, has_upstream,
    is_rebase_in_progress, list_remotes, pick_remote, HeadInfo,
};
use basalt::repo::init::{detect_base_branch, detect_provider};
use basalt::repo::metadata::{get_metadata_path, BranchMetadata, Metadata, METADATA_VERSION};

#[test]
fn test_metadata_new() {
    let metadata = Metadata::new(ProviderType::GitLab, "main".to_string());
    assert_eq!(metadata.version, METADATA_VERSION);
    assert_eq!(metadata.provider, ProviderType::GitLab);
    assert_eq!(metadata.base_branch, "main");
    assert!(metadata.branches.is_empty());
}

#[test]
fn test_metadata_validate_version() {
    let metadata = Metadata::new(ProviderType::GitLab, "main".to_string());
    assert!(metadata.validate_version().is_ok());

    let mut bad_metadata = metadata.clone();
    bad_metadata.version = "999".to_string();
    assert!(bad_metadata.validate_version().is_err());
}

#[test]
fn test_branch_metadata() {
    let mut metadata = BranchMetadata::new("main".to_string());
    assert_eq!(metadata.parent, "main");
    assert!(metadata.review_id.is_none());
    assert!(metadata.review_url.is_none());

    metadata.set_review("!123".to_string(), "https://example.com".to_string());
    assert_eq!(metadata.review_id, Some("!123".to_string()));
    assert_eq!(metadata.review_url, Some("https://example.com".to_string()));
    assert!(metadata.updated_at.is_some());
}

#[test]
fn test_metadata_branch_operations() {
    let mut metadata = Metadata::new(ProviderType::GitLab, "main".to_string());

    let branch_meta = BranchMetadata::new("main".to_string());
    metadata.set_branch("feature".to_string(), branch_meta);

    assert!(metadata.has_branch("feature"));
    assert!(!metadata.has_branch("nonexistent"));

    assert!(metadata.get_branch("feature").is_some());
    assert!(metadata.get_branch("nonexistent").is_none());

    let removed = metadata.remove_branch("feature");
    assert!(removed.is_some());
    assert!(!metadata.has_branch("feature"));
}

#[test]
fn branch_records_replace_and_touch() {
    let mut metadata = Metadata::new(ProviderType::GitHub, "main".to_string());
    metadata.set_branch("a".to_string(), BranchMetadata::new("main".to_string()));
    metadata.set_branch("b".to_string(), BranchMetadata::new("a".to_string()));
    metadata.set_branch("a".to_string(), BranchMetadata::new("b".to_string()));
    assert_eq!(metadata.branches.len(), 2);
    assert_eq!(metadata.get_branch("a").unwrap().parent, "b");
    assert_eq!(metadata.get_branch("b").unwrap().parent, "a");
    assert!(metadata.remove_branch("zzz").is_none());
    let mut m = BranchMetadata::new("p".to_string());
    assert!(m.updated_at.is_none());
    m.touch();
    assert!(m.updated_at.is_some());
    let mut bad = metadata.clone();
    bad.version = "2".to_string();
    match bad.validate_version() {
        Err(Error::UnsupportedMetadataVersion { version, supported_version }) => {
            assert_eq!(version, "2");
            assert_eq!(supported_version, "1");
        }
        other => panic!("unexpected {:?}", other),
    }
}

#[test]
fn test_list_remotes_returns_vec() {
    let remotes = list_remotes(vec![Some("origin".to_string()), None, Some("up".to_string())]);
    let _: Vec<String> = remotes.clone();
    assert_eq!(remotes, vec!["origin".to_string(), "up".to_string()]);
}

#[test]
fn test_detect_default_branch_returns_something() {
    let branch = detect_default_branch(None, false, false, false, false);
    assert!(!branch.is_empty());
    assert_eq!(branch, "main");
    assert_eq!(detect_default_branch(Some("refs/remotes/origin/trunk"), true, true, true, true), "trunk");
    assert_eq!(detect_default_branch(Some("refs/heads/x"), false, true, true, true), "master");
    assert_eq!(detect_default_branch(None, false, false, false, true), "master");
}

#[test]
fn paths_inside_the_git_directory() {
    assert_eq!(get_basalt_dir("/repo/.git"), "/repo/.git/basalt");
    assert_eq!(get_basalt_dir("/repo/.git/"), "/repo/.git/basalt");
    assert_eq!(get_metadata_path("/repo/.git/basalt"), "/repo/.git/basalt/metadata.yml");
    assert_eq!(join_path("", "x"), "x");
}

#[test]
fn environment_checks_in_order() {
    assert!(require_initialized(true).is_ok());
    assert!(matches!(require_initialized(false), Err(Error::NotInitialized)));
    assert!(matches!(require_clean_working_directory(true), Err(Error::UncommittedChanges)));
    assert!(require_clean_working_directory(false).is_ok());
    assert!(matches!(require_no_rebase_in_progress(true), Err(Error::RebaseInProgress)));
    assert!(matches!(check_basic_environment(false, false), Err(Error::NotInGitRepository)));
    assert!(matches!(check_basic_environment(true, false), Err(Error::NotInitialized)));
    assert!(check_basic_environment(true, true).is_ok());
    assert!(matches!(
        check_stack_operation_environment(true, true, true, true),
        Err(Error::UncommittedChanges)
    ));
    assert!(matches!(
        check_stack_operation_environment(true, true, false, true),
        Err(Error::RebaseInProgress)
    ));
    assert!(check_stack_operation_environment(true, true, false, false).is_ok());
    assert!(is_rebase_in_progress(false, true));
    assert!(!is_rebase_in_progress(false, false));
}

#[test]
fn git_decisions() {
    assert_eq!(get_current_branch(HeadInfo::Branch("feat".to_string())).unwrap(), "feat");
    match get_current_branch(HeadInfo::Detached) {
        Err(Error::Git { message }) => assert_eq!(message, "Detached HEAD state - not on a branch"),
        other => panic!("unexpected {:?}", other),
    }
    assert!(get_current_branch(HeadInfo::Branch(String::new())).is_err());
    assert_eq!(
        get_upstream("f", true, Some("origin".to_string()), Some("refs/heads/main".to_string())).unwrap(),
        "origin/main"
    );
    match get_upstream("f", true, None, Some("refs/heads/main".to_string())) {
        Err(Error::Git { message }) => assert_eq!(message, "Branch 'f' has no upstream configured"),
        other => panic!("unexpected {:?}", other),
    }
    match get_upstream("f", true, Some("o".to_string()), Some("main".to_string())) {
        Err(Error::Git { message }) => assert_eq!(message, "Invalid upstream ref format for branch 'f'"),
        other => panic!("unexpected {:?}", other),
    }
    match has_upstream("g", false, true) {
        Err(Error::Git { message }) => assert_eq!(message, "Branch 'g' not found"),
        other => panic!("unexpected {:?}", other),
    }
    assert!(has_upstream("g", true, true).unwrap());
    assert_eq!(get_repo_root(Some("/w".to_string())).unwrap(), "/w");
    assert!(get_repo_root(None).is_err());
    assert_eq!(pick_remote(&vec!["up".to_string(), "origin".to_string()]).unwrap(), "origin");
    assert_eq!(pick_remote(&vec!["up".to_string()]).unwrap(), "up");
    assert!(matches!(pick_remote(&vec![]), Err(Error::Config { .. })));
}

#[test]
fn test_detect_provider_with_override() {
    let result = detect_provider(Some("gitlab".to_string()), None);
    assert!(result.is_ok());
    assert_eq!(result.unwrap(), ProviderType::GitLab);

    let result = detect_provider(Some("github".to_string()), None);
    assert!(result.is_ok());
    assert_eq!(result.unwrap(), ProviderType::GitHub);

    let result = detect_provider(Some("unknown".to_string()), None);
    assert!(result.is_err());
}

#[test]
fn test_detect_base_branch_with_override() {
    let result = detect_base_branch(Some("develop".to_string()), "main".to_string());
    assert_eq!(result, "develop");
}

#[test]
fn provider_from_the_remote_when_not_named() {
    assert_eq!(
        detect_provider(None, Some("git@gitlab.com:user/repo.git".to_string())).unwrap(),
        ProviderType::GitLab
    );
    assert!(matches!(
        detect_provider(None, Some("https://example.com/repo.git".to_string())),
        Err(Error::ProviderDetectionFailed { .. })
    ));
    assert!(matches!(detect_provider(None, None), Err(Error::Config { .. })));
    assert_eq!(detect_base_branch(None, "trunk".to_string()), "trunk");
}
