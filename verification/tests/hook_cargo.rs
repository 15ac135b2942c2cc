use unduler::{BumpType, CargoHook, Plugin, ReleaseContext, ReleaseHook, Version, PACKAGE_VERSION};

fn create_test_context(dry_run: bool) -> ReleaseContext {
    ReleaseContext::new(
        "/tmp/test",
        Version::new(1, 0, 0),
        Version::new(1, 1, 0),
        BumpType::Minor,
        vec![],
    )
    .dry_run(dry_run)
}

#[test]
fn lib_test_new() {
    let hook = CargoHook::new();
    assert!(!hook.publish());
    assert!(hook.registry().is_none());
}

#[test]
fn lib_test_default() {
    let hook = CargoHook::default();
    assert!(!hook.publish());
    assert!(hook.registry().is_none());
}

#[test]
fn lib_test_with_publish() {
    let hook = CargoHook::new().with_publish(true);
    assert!(hook.publish());
}

#[test]
fn lib_test_with_publish_false() {
    let hook = CargoHook::new().with_publish(true).with_publish(false);
    assert!(!hook.publish());
}

#[test]
fn lib_test_with_registry() {
    let hook = CargoHook::new().with_registry("my-registry");
    assert_eq!(hook.registry(), Some("my-registry"));
}

#[test]
fn lib_test_with_registry_string() {
    let hook = CargoHook::new().with_registry(&String::from("custom-registry"));
    assert_eq!(hook.registry(), Some("custom-registry"));
}

#[test]
fn lib_test_builder_chain() {
    let hook = CargoHook::new()
        .with_publish(true)
        .with_registry("my-registry");
    assert!(hook.publish());
    assert_eq!(hook.registry(), Some("my-registry"));
}

#[test]
fn lib_test_plugin_name() {
    let hook = CargoHook::new();
    assert_eq!(hook.name(), "cargo");
}

#[test]
fn lib_test_plugin_version() {
    let hook = CargoHook::new();
    assert_eq!(hook.version(), PACKAGE_VERSION);
}

#[test]
fn lib_test_plugin_description() {
    let hook = CargoHook::new();
    assert_eq!(
        hook.description(),
        "Updates Cargo.toml version and optionally publishes to crates.io"
    );
}

#[test]
fn lib_test_on_post_bump_dry_run() {
    let hook = CargoHook::new();
    let mut ctx = create_test_context(true);
    assert!(hook.on_post_bump(&mut ctx).is_ok());
}

#[test]
fn lib_test_on_post_bump_not_dry_run() {
    let hook = CargoHook::new();
    let mut ctx = create_test_context(false);
    assert!(hook.on_post_bump(&mut ctx).is_ok());
}

#[test]
fn lib_test_on_post_tag_dry_run() {
    let hook = CargoHook::new().with_publish(true);
    let mut ctx = create_test_context(true);
    assert!(hook.on_post_tag(&mut ctx).is_ok());
}

#[test]
fn lib_test_on_post_tag_not_publishing() {
    let hook = CargoHook::new().with_publish(false);
    let mut ctx = create_test_context(false);
    assert!(hook.on_post_tag(&mut ctx).is_ok());
}

#[test]
fn lib_test_on_post_tag_publishing() {
    let hook = CargoHook::new().with_publish(true);
    let mut ctx = create_test_context(false);
    assert!(hook.on_post_tag(&mut ctx).is_ok());
}

#[test]
fn lib_test_on_post_tag_with_registry() {
    let hook = CargoHook::new()
        .with_publish(true)
        .with_registry("my-registry");
    let mut ctx = create_test_context(false);
    assert!(hook.on_post_tag(&mut ctx).is_ok());
}

#[test]
fn cargo_hook_default_hooks_succeed() {
    let hook = CargoHook::new();
    let mut ctx = create_test_context(false);
    assert!(hook.on_pre_bump(&mut ctx).is_ok());
    assert!(hook.on_pre_commit(&mut ctx).is_ok());
    assert!(hook.on_pre_tag(&mut ctx).is_ok());
}
