use unduler::{BumpType, Precedence, Version, VersionManager};

#[test]
fn test_bump_major() {
    let vm = VersionManager::new();
    let version = Version::new(1, 2, 3);
    let bumped = vm.bump(&version, BumpType::Major);
    assert_eq!(bumped, Version::new(2, 0, 0));
}

#[test]
fn test_bump_minor() {
    let vm = VersionManager::new();
    let version = Version::new(1, 2, 3);
    let bumped = vm.bump(&version, BumpType::Minor);
    assert_eq!(bumped, Version::new(1, 3, 0));
}

#[test]
fn test_bump_patch() {
    let vm = VersionManager::new();
    let version = Version::new(1, 2, 3);
    let bumped = vm.bump(&version, BumpType::Patch);
    assert_eq!(bumped, Version::new(1, 2, 4));
}

#[test]
fn test_from_tag() {
    let vm = VersionManager::new();
    let version = vm.from_tag("v1.2.3", "v");
    assert_eq!(version, Some(Version::new(1, 2, 3)));
}

#[test]
fn test_bump_none() {
    let vm = VersionManager::new();
    let version = Version::new(1, 2, 3);
    let bumped = vm.bump(&version, BumpType::NoBump);
    assert_eq!(bumped, Version::new(1, 2, 3));
}

#[test]
fn test_bump_clears_prerelease() {
    let vm = VersionManager::new();
    let version = Version::parse("1.2.3-alpha.1").unwrap();
    let bumped = vm.bump(&version, BumpType::Patch);
    assert_eq!(bumped, Version::new(1, 2, 4));
    assert!(bumped.pre.is_empty());
}

#[test]
fn test_bump_clears_build_metadata() {
    let vm = VersionManager::new();
    let version = Version::parse("1.2.3-rc.1+build.5").unwrap();
    assert_eq!(version.pre, "rc.1");
    assert_eq!(version.build, "build.5");
    for kind in [BumpType::Major, BumpType::Minor, BumpType::Patch] {
        let bumped = vm.bump(&version, kind);
        assert!(bumped.pre.is_empty());
        assert!(bumped.build.is_empty());
        assert!(bumped.is_newer_than(&version));
        assert_eq!(bumped.compare(&version), Some(Precedence::Higher));
    }
}

#[test]
fn version_test_default() {
    let vm = VersionManager;
    let version = Version::new(1, 0, 0);
    let bumped = vm.bump(&version, BumpType::Minor);
    assert_eq!(bumped, Version::new(1, 1, 0));
    let bumped = VersionManager::default().bump(&version, BumpType::Minor);
    assert_eq!(bumped, Version::new(1, 1, 0));
}

#[test]
fn test_parse_valid() {
    let vm = VersionManager::new();
    let version = vm.parse("2.0.0").unwrap();
    assert_eq!(version, Version::new(2, 0, 0));
}

#[test]
fn test_parse_invalid() {
    let vm = VersionManager::new();
    let result = vm.parse("not-a-version");
    assert!(result.is_err());
    assert!(!result.err().unwrap().to_string().is_empty());
}

#[test]
fn test_from_tag_invalid_version() {
    let vm = VersionManager::new();
    let version = vm.from_tag("vnotaversion", "v");
    assert!(version.is_none());
}

#[test]
fn test_from_tag_wrong_prefix() {
    let vm = VersionManager::new();
    let version = vm.from_tag("release-1.0.0", "v");
    assert!(version.is_none());
}

#[test]
fn test_from_tag_different_prefix() {
    let vm = VersionManager::new();
    let version = vm.from_tag("release-1.0.0", "release-");
    assert_eq!(version, Some(Version::new(1, 0, 0)));
}

#[test]
fn test_version_to_string() {
    assert_eq!(Version::new(0, 0, 0).to_string(), "0.0.0");
    assert_eq!(Version::new(1, 20, 300).to_string(), "1.20.300");
    assert_eq!(
        Version::new(u64::MAX, 0, 9).to_string(),
        "18446744073709551615.0.9"
    );
    let version = Version::parse("1.2.3-beta.1+exp.sha.5114f85").unwrap();
    assert_eq!(version.to_string(), "1.2.3-beta.1+exp.sha.5114f85");
    assert!(version.reads_back());
    let version = Version::parse("4.5.6+build").unwrap();
    assert_eq!(version.to_string(), "4.5.6+build");
    assert!(version.pre.is_empty());
}

#[test]
fn test_version_that_does_not_read_back() {
    let mut version = Version::new(1, 0, 0);
    version.pre = "not valid!".to_string();
    assert!(!version.reads_back());
    assert_eq!(version.compare(&Version::new(1, 0, 0)), None);
    assert_eq!(version.compare(&Version::new(1, 0, 1)), Some(Precedence::Lower));
}

#[test]
fn test_version_order() {
    let parse = |s: &str| Version::parse(s).unwrap();
    let ordered = [
        "0.9.9",
        "1.0.0-alpha",
        "1.0.0-alpha.1",
        "1.0.0-alpha.beta",
        "1.0.0-beta",
        "1.0.0-beta.2",
        "1.0.0-beta.11",
        "1.0.0-rc.1",
        "1.0.0",
        "1.0.1",
        "1.1.0",
        "2.0.0",
    ];
    for (i, a) in ordered.iter().enumerate() {
        for (j, b) in ordered.iter().enumerate() {
            let expected = if i < j {
                Precedence::Lower
            } else if i == j {
                Precedence::Same
            } else {
                Precedence::Higher
            };
            assert_eq!(parse(a).compare(&parse(b)), Some(expected), "{a} vs {b}");
            assert_eq!(parse(a).is_newer_than(&parse(b)), i > j);
        }
    }
}

#[test]
fn test_next_release() {
    let vm = VersionManager::new();
    // The first release is 0.1.0, whatever the bump kind.
    for kind in [
        BumpType::Major,
        BumpType::Minor,
        BumpType::Patch,
        BumpType::NoBump,
    ] {
        assert_eq!(vm.next_release(None, kind), Version::new(0, 1, 0));
    }
    let previous = Version::new(1, 2, 3);
    assert_eq!(
        vm.next_release(Some(&previous), BumpType::Major),
        Version::new(2, 0, 0)
    );
    assert_eq!(
        vm.next_release(Some(&previous), BumpType::Minor),
        Version::new(1, 3, 0)
    );
    assert_eq!(
        vm.next_release(Some(&previous), BumpType::Patch),
        Version::new(1, 2, 4)
    );
    // A bump of no kind counts as a patch.
    assert_eq!(
        vm.next_release(Some(&previous), BumpType::NoBump),
        Version::new(1, 2, 4)
    );
}

#[test]
fn test_checked_bump_at_the_limit() {
    let vm = VersionManager::new();
    let version = Version::new(u64::MAX, u64::MAX, 1);
    assert_eq!(vm.checked_bump(&version, BumpType::Major), None);
    assert_eq!(vm.checked_bump(&version, BumpType::Minor), None);
    assert_eq!(
        vm.checked_bump(&version, BumpType::Patch),
        Some(Version::new(u64::MAX, u64::MAX, 2))
    );
    assert_eq!(
        vm.checked_bump(&version, BumpType::NoBump),
        Some(version.clone())
    );
}

#[test]
fn test_checked_next_release() {
    let vm = VersionManager::new();
    assert_eq!(
        vm.checked_next_release(None, BumpType::Major),
        Some(Version::new(0, 1, 0))
    );
    let previous = Version::new(0, u64::MAX, 7);
    assert_eq!(vm.checked_next_release(Some(&previous), BumpType::Minor), None);
    assert_eq!(
        vm.checked_next_release(Some(&previous), BumpType::NoBump),
        Some(Version::new(0, u64::MAX, 8))
    );
}

#[test]
fn test_tag_name() {
    assert_eq!(
        unduler::version::tag_name("release-", &Version::new(3, 2, 1)),
        "release-3.2.1"
    );
}
