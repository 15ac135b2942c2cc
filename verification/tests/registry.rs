use unduler::discovery::{CrateRecord, MetadataReply, VersionRecord};
use unduler::{
    InstalledPlugin, PluginDiscovery, PluginManagerError, PluginRegistry, PluginStorage,
    PluginType, Version,
};

fn create_test_registry() -> PluginRegistry {
    let storage = PluginStorage::with_base_dir("/tmp/unduler-test");
    PluginRegistry::new(storage)
}

fn create_test_plugin() -> InstalledPlugin {
    InstalledPlugin {
        crate_name: "unduler-parser-conventional".to_string(),
        plugin_type: PluginType::Parser,
        short_name: "conventional".to_string(),
        version: Version::new(1, 0, 0),
        description: Some("Conventional commits parser".to_string()),
        repository: Some("https://github.com/example/repo".to_string()),
        installed_at: chrono::Utc::now().timestamp(),
    }
}

fn bumper_plugin() -> InstalledPlugin {
    InstalledPlugin {
        crate_name: "unduler-bumper-semver".to_string(),
        plugin_type: PluginType::Bumper,
        short_name: "semver".to_string(),
        version: Version::new(1, 0, 0),
        description: None,
        repository: None,
        installed_at: chrono::Utc::now().timestamp(),
    }
}

#[test]
fn test_register_and_get() {
    let mut registry = create_test_registry();
    let plugin = create_test_plugin();

    registry.register(plugin.clone()).unwrap();

    let found = registry.get("unduler-parser-conventional").unwrap();
    assert_eq!(found.version, Version::new(1, 0, 0));
    assert_eq!(found, &plugin);
    assert!(registry.get("unduler-parser-other").is_none());
}

#[test]
fn test_list_by_type() {
    let mut registry = create_test_registry();

    registry.register(create_test_plugin()).unwrap();
    registry.register(bumper_plugin()).unwrap();

    let parsers = registry.list_by_type(PluginType::Parser);
    assert_eq!(parsers.len(), 1);
    assert_eq!(parsers[0].short_name, "conventional");
    assert!(registry.list_by_type(PluginType::Hook).is_empty());
    let all = registry.list();
    assert_eq!(all.len(), 2);
    assert_eq!(all[0].short_name, "conventional");
    assert_eq!(all[1].short_name, "semver");
}

#[test]
fn test_unregister() {
    let mut registry = create_test_registry();
    let plugin = create_test_plugin();

    registry.register(plugin.clone()).unwrap();
    assert!(registry.is_installed("unduler-parser-conventional"));

    let removed = registry.unregister("unduler-parser-conventional").unwrap();
    assert_eq!(removed, plugin);
    assert!(!registry.is_installed("unduler-parser-conventional"));
}

#[test]
fn test_persistence() {
    // What is written to the registry file is the list of records; a registry
    // made from that list holds the same plugins.
    let mut registry = create_test_registry();
    registry.register(create_test_plugin()).unwrap();
    registry.register(bumper_plugin()).unwrap();
    let records: Vec<InstalledPlugin> = registry.list().into_iter().cloned().collect();

    let storage = PluginStorage::with_base_dir("/tmp/unduler-test");
    let registry = PluginRegistry::with_plugins(storage, records).unwrap();
    assert!(registry.is_installed("unduler-parser-conventional"));
    assert!(registry.is_installed("unduler-bumper-semver"));
    assert_eq!(registry.list().len(), 2);
}

#[test]
fn test_with_plugins_refuses_duplicates() {
    let storage = PluginStorage::with_base_dir("/tmp/unduler-test");
    let records = vec![create_test_plugin(), bumper_plugin(), create_test_plugin()];
    assert!(PluginRegistry::with_plugins(storage, records).is_none());
}

#[test]
fn test_register_twice_fails_and_changes_nothing() {
    let mut registry = create_test_registry();
    registry.register(create_test_plugin()).unwrap();
    let mut newer = create_test_plugin();
    newer.version = Version::new(2, 0, 0);
    assert_eq!(
        registry.register(newer),
        Err(PluginManagerError::AlreadyInstalled {
            name: "unduler-parser-conventional".to_string(),
            version: "2.0.0".to_string(),
        })
    );
    assert_eq!(
        registry.get("unduler-parser-conventional").unwrap().version,
        Version::new(1, 0, 0)
    );
    assert_eq!(registry.list().len(), 1);
}

#[test]
fn test_upgrade() {
    let mut registry = create_test_registry();
    assert_eq!(
        registry.upgrade(create_test_plugin()),
        Err(PluginManagerError::PluginNotFound {
            name: "unduler-parser-conventional".to_string()
        })
    );
    assert!(registry.list().is_empty());

    registry.register(create_test_plugin()).unwrap();
    registry.register(bumper_plugin()).unwrap();
    let mut newer = create_test_plugin();
    newer.version = Version::new(1, 1, 0);
    registry.upgrade(newer).unwrap();
    // The record keeps its place.
    let all = registry.list();
    assert_eq!(all.len(), 2);
    assert_eq!(all[0].version, Version::new(1, 1, 0));
    assert_eq!(all[1].short_name, "semver");
}

#[test]
fn test_unregister_unknown() {
    let mut registry = create_test_registry();
    assert_eq!(
        registry.unregister("unduler-hook-cargo"),
        Err(PluginManagerError::PluginNotFound { name: "unduler-hook-cargo".to_string() })
    );
}

#[test]
fn test_get_by_short_name() {
    let mut registry = create_test_registry();
    registry.register(create_test_plugin()).unwrap();
    assert!(registry
        .get_by_short_name("conventional", PluginType::Parser)
        .is_some());
    assert!(registry
        .get_by_short_name("conventional", PluginType::Hook)
        .is_none());
    assert_eq!(registry.storage().base_dir(), "/tmp/unduler-test");
}

fn metadata(latest: &str) -> unduler::PluginMetadata {
    PluginDiscovery::new()
        .fetch_metadata(
            "unduler-hook-cargo",
            MetadataReply::Found(CrateRecord {
                description: None,
                repository: Some("https://github.com/owner/repo".to_string()),
                max_stable_version: Some(latest.to_string()),
                versions: vec![VersionRecord { num: latest.to_string(), yanked: false }],
            }),
        )
        .unwrap()
}

#[test]
fn test_install_and_uninstall() {
    let discovery = PluginDiscovery::new();
    let mut registry = create_test_registry();
    let metadata = metadata("0.4.0");

    // Install: the plan says where the binary goes, and the record goes in.
    let plan = discovery.plan_install(&registry, &metadata, None).unwrap();
    assert_eq!(plan.version, Version::new(0, 4, 0));
    assert_eq!(plan.path, "/tmp/unduler-test/plugins/hook-cargo/0.4.0.wasm");
    let plugin = discovery
        .install(&mut registry, &metadata, &plan.version, 1_700_000_000)
        .unwrap();
    assert_eq!(plugin.crate_name, "unduler-hook-cargo");
    assert_eq!(plugin.installed_at, 1_700_000_000);
    assert_eq!(registry.get("unduler-hook-cargo"), Some(&plugin));

    // The same version again is refused, and nothing changes.
    assert_eq!(
        discovery.plan_install(&registry, &metadata, None),
        Err(PluginManagerError::AlreadyInstalled {
            name: "unduler-hook-cargo".to_string(),
            version: "0.4.0".to_string(),
        })
    );
    assert_eq!(
        discovery.plan_install(&registry, &metadata, Some(&Version::new(0, 4, 0))),
        Err(PluginManagerError::AlreadyInstalled {
            name: "unduler-hook-cargo".to_string(),
            version: "0.4.0".to_string(),
        })
    );
    let before = registry.get("unduler-hook-cargo").cloned();
    assert_eq!(
        discovery.install(&mut registry, &metadata, &Version::new(0, 4, 0), 1_700_000_050),
        Err(PluginManagerError::AlreadyInstalled {
            name: "unduler-hook-cargo".to_string(),
            version: "0.4.0".to_string(),
        })
    );
    assert_eq!(registry.get("unduler-hook-cargo").cloned(), before);
    assert_eq!(registry.list().len(), 1);

    // Another version is an upgrade of the same record.
    let plan = discovery
        .plan_install(&registry, &metadata, Some(&Version::new(0, 5, 0)))
        .unwrap();
    assert_eq!(plan.path, "/tmp/unduler-test/plugins/hook-cargo/0.5.0.wasm");
    let upgraded = discovery
        .install(&mut registry, &metadata, &plan.version, 1_700_000_100)
        .unwrap();
    assert_eq!(upgraded.installed_at, 1_700_000_100);
    assert_eq!(registry.list().len(), 1);
    assert_eq!(
        registry.get("unduler-hook-cargo").unwrap().version,
        Version::new(0, 5, 0)
    );

    // Uninstall: the record goes out, and the binary to delete is named.
    let removal = discovery.uninstall(&mut registry, "unduler-hook-cargo").unwrap();
    assert_eq!(removal.path, "/tmp/unduler-test/plugins/hook-cargo/0.5.0.wasm");
    assert_eq!(removal.dir, "/tmp/unduler-test/plugins/hook-cargo");
    assert_eq!(removal.plugin.version, Version::new(0, 5, 0));
    assert!(!registry.is_installed("unduler-hook-cargo"));
    assert_eq!(
        discovery.uninstall(&mut registry, "unduler-hook-cargo").err(),
        Some(PluginManagerError::PluginNotFound { name: "unduler-hook-cargo".to_string() })
    );
}
