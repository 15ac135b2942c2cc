use unduler::Plugin;

struct MinimalPlugin;

impl Plugin for MinimalPlugin {
    fn name(&self) -> &'static str {
        "minimal"
    }
    fn version(&self) -> &'static str {
        "1.0.0"
    }
    // Using default description
}

struct CustomPlugin;

impl Plugin for CustomPlugin {
    fn name(&self) -> &'static str {
        "custom"
    }
    fn version(&self) -> &'static str {
        "2.0.0"
    }
    fn description(&self) -> &'static str {
        "Custom description"
    }
}

#[test]
fn test_default_description() {
    let plugin = MinimalPlugin;
    assert_eq!(plugin.description(), "");
}

#[test]
fn test_custom_description() {
    let plugin = CustomPlugin;
    assert_eq!(plugin.description(), "Custom description");
}

#[test]
fn mod_test_plugin_name() {
    let plugin = MinimalPlugin;
    assert_eq!(plugin.name(), "minimal");
}

#[test]
fn mod_test_plugin_version() {
    let plugin = MinimalPlugin;
    assert_eq!(plugin.version(), "1.0.0");
}
