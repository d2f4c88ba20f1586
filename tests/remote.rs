use basalt::error::Error;
use basalt::remote::{extract_base_url, extract_project_path, remote_host};

#[test]
fn nested_project_over_https() {
    let url = "https://git-host.example/grp/sub/repo.git";
    assert_eq!(extract_base_url(url).unwrap(), "https://git-host.example");
    assert_eq!(extract_project_path(url).unwrap(), "grp/sub/repo");
}

#[test]
fn all_supported_shapes() {
    for url in [
        "https://gitlab.com/owner/repo.git",
        "https://gitlab.com/owner/repo",
        "https://gitlab.com/owner/repo/",
        "https://gitlab.com/owner/repo.git/",
    ] {
        assert_eq!(extract_base_url(url).unwrap(), "https://gitlab.com");
        assert_eq!(extract_project_path(url).unwrap(), "owner/repo");
    }
    for url in [
        "git@gitlab.com:owner/repo.git",
        "git@gitlab.com:owner/repo",
        "git@gitlab.com:owner/repo/",
    ] {
        assert_eq!(extract_base_url(url).unwrap(), "https://gitlab.com");
        assert_eq!(extract_project_path(url).unwrap(), "owner/repo");
    }
    assert_eq!(extract_base_url("http://host:8080/a/b").unwrap(), "http://host:8080");
}

#[test]
fn canonical_form_extracts_the_same() {
    for url in [
        "git@gitlab.example.com:a/b/c.git",
        "https://gitlab.example.com/a/b/c/",
        "https://gitlab.example.com/a/b/c",
    ] {
        let base = extract_base_url(url).unwrap();
        let path = extract_project_path(url).unwrap();
        let canonical = format!("{}/{}.git", base, path);
        assert_eq!(extract_base_url(&canonical).unwrap(), base);
        assert_eq!(extract_project_path(&canonical).unwrap(), path);
    }
}

#[test]
fn unreadable_remotes_fail() {
    for url in ["", "plain", "https://", "https:///path", "https://host", "git@:path", "git@ho/st:path"] {
        match extract_project_path(url) {
            Err(Error::ExtractionFailed { remote_url }) => assert_eq!(remote_url, url),
            other => panic!("unexpected {:?} for {}", other, url),
        }
    }
    match extract_base_url("plain") {
        Err(Error::ExtractionFailed { remote_url }) => assert_eq!(remote_url, "plain"),
        other => panic!("unexpected {:?}", other),
    }
    assert_eq!(extract_base_url("https://host").unwrap(), "https://host");
    assert!(extract_project_path("https://host/.git").is_err());
}

#[test]
fn hosts_of_remotes() {
    assert_eq!(remote_host("https://gitlab.com/a/b"), Some("gitlab.com"));
    assert_eq!(remote_host("git@github.com:a/b.git"), Some("github.com"));
    assert_eq!(remote_host("nothing"), None);
}
