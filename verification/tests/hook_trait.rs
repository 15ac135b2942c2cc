use unduler::{BumpType, Plugin, ReleaseContext, ReleaseHook, Version};

// A minimal hook that uses all defaults
struct MinimalHook;

impl Plugin for MinimalHook {
    fn name(&self) -> &'static str {
        "minimal-hook"
    }
    fn version(&self) -> &'static str {
        "1.0.0"
    }
}

impl ReleaseHook for MinimalHook {}

fn create_test_context() -> ReleaseContext {
    ReleaseContext::new(
        "/tmp/test",
        Version::new(1, 0, 0),
        Version::new(1, 1, 0),
        BumpType::Minor,
        vec![],
    )
}

#[test]
fn test_default_pre_bump() {
    let hook = MinimalHook;
    let mut ctx = create_test_context();
    assert!(hook.on_pre_bump(&mut ctx).is_ok());
}

#[test]
fn test_default_post_bump() {
    let hook = MinimalHook;
    let mut ctx = create_test_context();
    assert!(hook.on_post_bump(&mut ctx).is_ok());
}

#[test]
fn test_default_pre_commit() {
    let hook = MinimalHook;
    let mut ctx = create_test_context();
    assert!(hook.on_pre_commit(&mut ctx).is_ok());
}

#[test]
fn test_default_pre_tag() {
    let hook = MinimalHook;
    let mut ctx = create_test_context();
    assert!(hook.on_pre_tag(&mut ctx).is_ok());
}

#[test]
fn test_default_post_tag() {
    let hook = MinimalHook;
    let mut ctx = create_test_context();
    assert!(hook.on_post_tag(&mut ctx).is_ok());
}
