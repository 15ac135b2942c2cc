use unduler::{
    BumpType, GithubReleaseHook, Plugin, ReleaseContext, ReleaseHook, Version, PACKAGE_VERSION,
};

fn create_test_context(dry_run: bool) -> ReleaseContext {
    ReleaseContext::new(
        "/tmp/test",
        Version::new(1, 0, 0),
        Version::new(1, 1, 0),
        BumpType::Minor,
        vec![],
    )
    .dry_run(dry_run)
}

#[test]
fn github_hook_test_new() {
    let hook = GithubReleaseHook::new();
    assert!(!hook.is_draft());
    assert!(!hook.is_prerelease());
    assert!(hook.assets().is_empty());
}

#[test]
fn github_hook_test_default() {
    let hook = GithubReleaseHook::default();
    assert!(!hook.is_draft());
    assert!(!hook.is_prerelease());
    assert!(hook.assets().is_empty());
}

#[test]
fn test_with_draft() {
    let hook = GithubReleaseHook::new().with_draft(true);
    assert!(hook.is_draft());
}

#[test]
fn test_with_draft_false() {
    let hook = GithubReleaseHook::new().with_draft(true).with_draft(false);
    assert!(!hook.is_draft());
}

#[test]
fn test_with_prerelease() {
    let hook = GithubReleaseHook::new().with_prerelease(true);
    assert!(hook.is_prerelease());
}

#[test]
fn test_with_prerelease_false() {
    let hook = GithubReleaseHook::new()
        .with_prerelease(true)
        .with_prerelease(false);
    assert!(!hook.is_prerelease());
}

#[test]
fn test_with_assets() {
    let assets = vec!["dist/app.zip".to_string(), "dist/app.tar.gz".to_string()];
    let hook = GithubReleaseHook::new().with_assets(assets.clone());
    assert_eq!(hook.assets(), &assets);
}

#[test]
fn test_with_assets_empty() {
    let hook = GithubReleaseHook::new().with_assets(vec![]);
    assert!(hook.assets().is_empty());
}

#[test]
fn github_hook_test_builder_chain() {
    let assets = vec!["binary.exe".to_string()];
    let hook = GithubReleaseHook::new()
        .with_draft(true)
        .with_prerelease(true)
        .with_assets(assets.clone());
    assert!(hook.is_draft());
    assert!(hook.is_prerelease());
    assert_eq!(hook.assets(), &assets);
}

#[test]
fn github_hook_test_plugin_name() {
    let hook = GithubReleaseHook::new();
    assert_eq!(hook.name(), "github-release");
}

#[test]
fn github_hook_test_plugin_version() {
    let hook = GithubReleaseHook::new();
    assert_eq!(hook.version(), PACKAGE_VERSION);
}

#[test]
fn github_hook_test_plugin_description() {
    let hook = GithubReleaseHook::new();
    assert_eq!(
        hook.description(),
        "Creates GitHub Releases and uploads assets"
    );
}

#[test]
fn github_hook_test_on_post_tag_dry_run() {
    let hook = GithubReleaseHook::new();
    let mut ctx = create_test_context(true);
    let result = hook.on_post_tag(&mut ctx);
    assert!(result.is_ok());
}

#[test]
fn test_on_post_tag_not_dry_run() {
    let hook = GithubReleaseHook::new();
    let mut ctx = create_test_context(false);
    let result = hook.on_post_tag(&mut ctx);
    assert!(result.is_ok());
}

#[test]
fn test_on_post_tag_with_draft() {
    let hook = GithubReleaseHook::new().with_draft(true);
    let mut ctx = create_test_context(false);
    let result = hook.on_post_tag(&mut ctx);
    assert!(result.is_ok());
}

#[test]
fn test_on_post_tag_with_prerelease() {
    let hook = GithubReleaseHook::new().with_prerelease(true);
    let mut ctx = create_test_context(false);
    let result = hook.on_post_tag(&mut ctx);
    assert!(result.is_ok());
}

#[test]
fn test_on_post_tag_with_assets() {
    let hook = GithubReleaseHook::new().with_assets(vec![
        "dist/app.zip".to_string(),
        "dist/app.tar.gz".to_string(),
    ]);
    let mut ctx = create_test_context(false);
    let result = hook.on_post_tag(&mut ctx);
    assert!(result.is_ok());
}

#[test]
fn test_on_post_tag_full_config() {
    let hook = GithubReleaseHook::new()
        .with_draft(true)
        .with_prerelease(true)
        .with_assets(vec!["release.zip".to_string()]);
    let mut ctx = create_test_context(false);
    let result = hook.on_post_tag(&mut ctx);
    assert!(result.is_ok());
}
