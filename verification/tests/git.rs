use unduler::git::latest_position;
use unduler::{latest_version_tag, GitError, Version};

fn tags(list: &[&str]) -> Vec<String> {
    list.iter().map(|t| t.to_string()).collect()
}

#[test]
fn test_latest_version_tag_none() {
    let result = latest_version_tag(&tags(&[]), "v");
    assert!(result.is_none());
}

#[test]
fn test_latest_version_tag_single() {
    let result = latest_version_tag(&tags(&["v1.0.0"]), "v");
    assert_eq!(result, Some("v1.0.0".to_string()));
}

#[test]
fn test_latest_version_tag_multiple() {
    let result = latest_version_tag(&tags(&["v1.0.0", "v1.1.0", "v2.0.0"]), "v");
    assert_eq!(result, Some("v2.0.0".to_string()));
}

#[test]
fn test_latest_version_tag_prerelease() {
    let result = latest_version_tag(&tags(&["v1.0.0", "v1.0.1-beta.1"]), "v");
    // 1.0.1-beta.1 comes after 1.0.0
    assert_eq!(result, Some("v1.0.1-beta.1".to_string()));
}

#[test]
fn test_latest_version_tag_different_prefix() {
    let all = tags(&["v1.0.0", "release-2.0.0"]);
    let result_v = latest_version_tag(&all, "v");
    assert_eq!(result_v, Some("v1.0.0".to_string()));

    let result_release = latest_version_tag(&all, "release-");
    assert_eq!(result_release, Some("release-2.0.0".to_string()));
}

#[test]
fn test_latest_version_tag_ignores_non_semver() {
    let result = latest_version_tag(&tags(&["v1.0.0", "vnot-semver"]), "v");
    assert_eq!(result, Some("v1.0.0".to_string()));
}

#[test]
fn test_latest_version_tag_keeps_the_first_of_equals() {
    let result = latest_version_tag(&tags(&["v1.0.0+a", "v0.9.0", "v1.0.0+a"]), "v");
    assert_eq!(result, Some("v1.0.0+a".to_string()));
    let result = latest_version_tag(&tags(&["1.0.0-rc.1", "1.0.0", "1.0.0-rc.2"]), "");
    assert_eq!(result, Some("1.0.0".to_string()));
}

#[test]
fn test_repo_not_found_display() {
    let err = GitError::RepoNotFound("/tmp/repo".to_string());
    assert_eq!(err.to_string(), "repository not found at /path/to/repo");
}

#[test]
fn test_not_a_repo_display() {
    let err = GitError::NotARepo("/tmp/not-git".to_string());
    assert_eq!(err.to_string(), "not a git repository: /tmp/not-git");
}

#[test]
fn test_tag_not_found_display() {
    let err = GitError::TagNotFound("v1.0.0".to_string());
    assert_eq!(err.to_string(), "tag not found: v1.0.0");
}

#[test]
fn test_no_commits_display() {
    let err = GitError::NoCommits;
    assert_eq!(err.to_string(), "no commits found");
}

#[test]
fn test_git_error_is_debug() {
    let err = GitError::NoCommits;
    let debug = format!("{err:?}");
    assert!(debug.contains("NoCommits"));
    let err = GitError::Git2("bad object".to_string());
    assert_eq!(err.to_string(), "git error: bad object");
    let debug = format!("{err:?}");
    assert!(debug.contains("Git2"));
    assert_eq!(GitError::Io("gone".to_string()).to_string(), "IO error: gone");
}

#[test]
fn test_latest_position() {
    assert_eq!(latest_position(&Vec::new()), None);
    assert_eq!(latest_position(&vec![None, None]), None);
    assert_eq!(
        latest_position(&vec![
            None,
            Some(Version::new(1, 2, 0)),
            Some(Version::new(1, 10, 0)),
            None,
            Some(Version::new(1, 9, 9)),
        ]),
        Some(2)
    );
}

#[test]
fn test_latest_position_keeps_the_first_of_equals() {
    assert_eq!(
        latest_position(&vec![
            Some(Version::new(2, 0, 0)),
            Some(Version::new(2, 0, 0)),
            Some(Version::new(1, 0, 0)),
        ]),
        Some(0)
    );
}
