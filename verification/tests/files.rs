use unduler::files::{
    file_kind, read_cargo_toml_version, read_package_json_version, update_cargo_toml,
    update_package_json, FileKind,
};
use unduler::{read_version_from_file, update_version_file, FileUpdateError, Version};

const CARGO_TOML: &str = "[package]\nname = \"test\"\nversion = \"1.0.0\"\n\n[dependencies]\n\n";
const PACKAGE_JSON: &str = "{\n  \"name\": \"test\",\n  \"version\": \"1.0.0\"\n}\n";

#[test]
fn test_update_cargo_toml() {
    let version = Version::new(2, 0, 0);
    let content = update_cargo_toml("Cargo.toml", CARGO_TOML, &version, false)
        .unwrap()
        .unwrap();
    assert!(content.contains(r#"version = "2.0.0""#));
    assert_eq!(
        content,
        "[package]\nname = \"test\"\nversion = \"2.0.0\"\n\n[dependencies]\n\n"
    );
}

#[test]
fn test_update_cargo_toml_dry_run() {
    let version = Version::new(2, 0, 0);
    let written = update_cargo_toml("Cargo.toml", CARGO_TOML, &version, true).unwrap();
    // Nothing is to be written: the file stays as it is
    assert_eq!(written, None);
}

#[test]
fn test_update_package_json() {
    let version = Version::new(2, 0, 0);
    let content = update_package_json("package.json", PACKAGE_JSON, &version, false)
        .unwrap()
        .unwrap();
    assert!(content.contains(r#""version": "2.0.0""#));
    assert_eq!(content, "{\n  \"name\": \"test\",\n  \"version\": \"2.0.0\"\n}\n");
}

#[test]
fn test_update_package_json_dry_run() {
    let version = Version::new(2, 0, 0);
    let written = update_package_json("package.json", PACKAGE_JSON, &version, true).unwrap();
    assert_eq!(written, None);
}

#[test]
fn test_read_cargo_toml_version() {
    let content = "[package]\nname = \"test\"\nversion = \"1.2.3\"\n\n";
    let version = read_cargo_toml_version("Cargo.toml", content).unwrap();
    assert_eq!(version, Version::new(1, 2, 3));
}

#[test]
fn test_read_package_json_version() {
    let content = "{\n  \"name\": \"test\",\n  \"version\": \"1.2.3\"\n}\n";
    let version = read_package_json_version("package.json", content).unwrap();
    assert_eq!(version, Version::new(1, 2, 3));
}

#[test]
fn test_update_version_file_cargo() {
    let content = "[package]\nname = \"test\"\nversion = \"1.0.0\"\n\n";
    let version = Version::new(2, 0, 0);
    let updated = update_version_file("/tmp/x7Qp.toml", Some(content), &version, false)
        .unwrap()
        .unwrap();
    assert!(updated.contains(r#"version = "2.0.0""#));
}

#[test]
fn test_read_version_from_file_cargo() {
    let content = "[package]\nname = \"test\"\nversion = \"3.2.1\"\n\n";
    let version = read_version_from_file("/tmp/x7Qp.toml", Some(content)).unwrap();
    assert_eq!(version, Version::new(3, 2, 1));
}

#[test]
fn test_version_not_found() {
    let content = "[package]\nname = \"test\"\n\n";
    let result = read_cargo_toml_version("Cargo.toml", content);
    assert!(matches!(result, Err(FileUpdateError::VersionNotFound(_))));
}

#[test]
fn test_file_not_found() {
    let result = read_version_from_file("/nonexistent/Cargo.toml", None);
    assert!(matches!(result, Err(FileUpdateError::NotFound(_))));
    let result = update_version_file("/nonexistent/Cargo.toml", None, &Version::new(1, 0, 0), false);
    assert_eq!(
        result,
        Err(FileUpdateError::NotFound("/nonexistent/Cargo.toml".to_string()))
    );
}

#[test]
fn test_unsupported_file_type() {
    let result = update_version_file("/tmp/notes.txt", Some(""), &Version::new(1, 0, 0), false);
    assert!(matches!(
        result,
        Err(FileUpdateError::UnsupportedFileType(_))
    ));
    // The file type is looked at before the file.
    let result = read_version_from_file("/tmp/notes.txt", None);
    assert_eq!(
        result,
        Err(FileUpdateError::UnsupportedFileType("/tmp/notes.txt".to_string()))
    );
}

#[test]
fn test_error_display() {
    let err = FileUpdateError::NotFound("test.toml".to_string());
    assert_eq!(err.to_string(), "file not found: test.toml");

    let err = FileUpdateError::VersionNotFound("Cargo.toml".to_string());
    assert_eq!(err.to_string(), "version not found in Cargo.toml");

    let err = FileUpdateError::UnsupportedFileType("test.txt".to_string());
    assert_eq!(err.to_string(), "unsupported file type: test.txt");

    let err = FileUpdateError::ParseError {
        file: "test.json".to_string(),
        reason: "invalid JSON".to_string(),
    };
    assert_eq!(err.to_string(), "failed to parse test.json: invalid JSON");

    let err = FileUpdateError::ReadError("denied".to_string());
    assert_eq!(err.to_string(), "failed to read file: denied");
}

#[test]
fn test_file_kind() {
    assert_eq!(file_kind("Cargo.toml"), Some(FileKind::KeyedToml));
    assert_eq!(file_kind("crates/core/Cargo.toml"), Some(FileKind::KeyedToml));
    assert_eq!(file_kind("package.json"), Some(FileKind::JsonObject));
    assert_eq!(file_kind("web/package.json/"), Some(FileKind::JsonObject));
    assert_eq!(file_kind("pyproject.toml"), Some(FileKind::KeyedToml));
    assert_eq!(file_kind("a/b/settings.json"), Some(FileKind::JsonObject));
    assert_eq!(file_kind("archive.tar.json"), Some(FileKind::JsonObject));
    assert_eq!(file_kind("version.txt"), None);
    assert_eq!(file_kind("toml"), None);
    assert_eq!(file_kind(".toml"), None);
    assert_eq!(file_kind("dir.toml/file"), None);
    assert_eq!(file_kind("dir/.."), None);
    assert_eq!(file_kind("name."), None);
    assert_eq!(file_kind(""), None);
    assert_eq!(file_kind("///"), None);
}

#[test]
fn test_toml_update_keeps_everything_else() {
    let content = "# version = \"0.0.1\" in a comment does not count\n[package]\n\tversion\t=   \"1.0.0-rc.1\"   # trailing\nversion = \"9.9.9\"\n[dependencies]\nother = { version = \"3\" }\n";
    let version = Version::new(1, 0, 0);
    let updated = update_cargo_toml("Cargo.toml", content, &version, false)
        .unwrap()
        .unwrap();
    assert_eq!(
        updated,
        "# version = \"0.0.1\" in a comment does not count\n[package]\n\tversion\t=   \"1.0.0\"   # trailing\nversion = \"9.9.9\"\n[dependencies]\nother = { version = \"3\" }\n"
    );
    assert_eq!(
        read_cargo_toml_version("Cargo.toml", &updated).unwrap(),
        version
    );
}

#[test]
fn test_toml_round_trip() {
    let contents = [
        CARGO_TOML,
        "version=\"0.1.0\"",
        "  version = \"1.0.0\"\n",
        "[a]\nname = \"version\"\nversion = \"2.0.0-beta\"\n",
    ];
    let versions = [
        Version::new(0, 0, 0),
        Version::new(10, 20, 30),
        Version::parse("1.2.3-alpha.1+build.7").unwrap(),
    ];
    for content in contents {
        for version in &versions {
            let updated = update_cargo_toml("Cargo.toml", content, version, false)
                .unwrap()
                .unwrap();
            assert_eq!(
                &read_cargo_toml_version("Cargo.toml", &updated).unwrap(),
                version
            );
            // Writing the old version again gives the old content back.
            let old = read_cargo_toml_version("Cargo.toml", content).unwrap();
            let restored = update_cargo_toml("Cargo.toml", &updated, &old, false)
                .unwrap()
                .unwrap();
            assert_eq!(restored, content);
        }
    }
}

#[test]
fn test_toml_lines_that_do_not_count() {
    for content in [
        "",
        "name = \"version\"\n",
        "version = 1.0.0\n",
        "version = \"\"\n",
        "version = \"1.0.0\n",
        "# version = \"1.0.0\"\n",
        "my_version = \"1.0.0\"\n",
        "version\n= \"1.0.0\"\n",
    ] {
        assert_eq!(
            update_cargo_toml("Cargo.toml", content, &Version::new(1, 0, 0), false),
            Err(FileUpdateError::VersionNotFound("Cargo.toml".to_string())),
            "{content:?}"
        );
    }
}

#[test]
fn test_toml_invalid_version_literal() {
    let result = read_cargo_toml_version("Cargo.toml", "version = \"one.two\"\n");
    assert!(matches!(
        result,
        Err(FileUpdateError::ParseError { ref file, .. }) if file == "Cargo.toml"
    ));
}

#[test]
fn test_json_errors() {
    let version = Version::new(1, 0, 0);
    let result = update_package_json("package.json", "{ not json", &version, false);
    assert!(matches!(
        result,
        Err(FileUpdateError::ParseError { ref file, .. }) if file == "package.json"
    ));
    let result = update_package_json("package.json", "[1, 2]", &version, false);
    assert_eq!(
        result,
        Err(FileUpdateError::ParseError {
            file: "package.json".to_string(),
            reason: "not a JSON object".to_string(),
        })
    );
    let result = update_package_json("package.json", "{\"name\": \"x\"}", &version, true);
    assert_eq!(
        result,
        Err(FileUpdateError::VersionNotFound("package.json".to_string()))
    );
    let result = read_package_json_version("package.json", "{\"name\": \"x\"}");
    assert_eq!(
        result,
        Err(FileUpdateError::VersionNotFound("package.json".to_string()))
    );
    let result = read_package_json_version("package.json", "{\"version\": 3}");
    assert_eq!(
        result,
        Err(FileUpdateError::VersionNotFound("package.json".to_string()))
    );
    let result = read_package_json_version("package.json", "{\"version\": \"three\"}");
    assert!(matches!(result, Err(FileUpdateError::ParseError { .. })));
    let result = read_package_json_version("package.json", "nope");
    assert!(matches!(result, Err(FileUpdateError::ParseError { .. })));
}

#[test]
fn test_json_round_trip() {
    let version = Version::parse("2.5.0-rc.2").unwrap();
    let content = "{\"private\":true,\"version\":7,\"name\":\"pkg\",\"nested\":{\"version\":\"0.0.1\"}}";
    let updated = update_package_json("package.json", content, &version, false)
        .unwrap()
        .unwrap();
    assert!(updated.ends_with("}\n"));
    assert!(updated.contains("  \"version\": \"2.5.0-rc.2\""));
    assert!(updated.contains("    \"version\": \"0.0.1\""));
    assert_eq!(
        read_package_json_version("package.json", &updated).unwrap(),
        version
    );
}

#[test]
fn test_json_parse_error_has_a_reason() {
    let result = read_package_json_version("package.json", "{ \"version\": ");
    match result {
        Err(FileUpdateError::ParseError { file, reason }) => {
            assert_eq!(file, "package.json");
            assert!(!reason.is_empty());
            assert_ne!(reason, "{ \"version\": ");
        }
        other => panic!("expected a parse error, got {other:?}"),
    }
}

#[test]
fn test_update_version_file_says_why_it_fails() {
    let v = Version::new(2, 0, 0);
    assert_eq!(
        update_version_file("package.json", Some("{\"name\": \"x\"}"), &v, false),
        Err(FileUpdateError::VersionNotFound("package.json".to_string()))
    );
    assert!(matches!(
        update_version_file("package.json", Some("[1, 2]"), &v, false),
        Err(FileUpdateError::ParseError { .. })
    ));
    assert!(matches!(
        update_version_file("package.json", Some("{ not json"), &v, true),
        Err(FileUpdateError::ParseError { .. })
    ));
    assert_eq!(
        update_version_file("Cargo.toml", Some("[package]\nname = \"x\"\n"), &v, false),
        Err(FileUpdateError::VersionNotFound("Cargo.toml".to_string()))
    );
    // A dry run never gives anything to write.
    assert_eq!(update_version_file("Cargo.toml", Some(CARGO_TOML), &v, true), Ok(None));
    assert_eq!(update_version_file("package.json", Some(PACKAGE_JSON), &v, true), Ok(None));
}

#[test]
fn test_read_version_from_file_says_why_it_fails() {
    assert_eq!(
        read_version_from_file("Cargo.toml", Some("[package]\nname = \"x\"\n")),
        Err(FileUpdateError::VersionNotFound("Cargo.toml".to_string()))
    );
    assert!(matches!(
        read_version_from_file("Cargo.toml", Some("version = \"one\"\n")),
        Err(FileUpdateError::ParseError { .. })
    ));
    assert_eq!(
        read_version_from_file("package.json", Some("{\"name\": \"x\"}")),
        Err(FileUpdateError::VersionNotFound("package.json".to_string()))
    );
    assert!(matches!(
        read_version_from_file("package.json", Some("{\"version\": \"one\"}")),
        Err(FileUpdateError::ParseError { .. })
    ));
}

#[test]
fn test_version_file_round_trip_by_path() {
    let v = Version::parse("3.1.4-rc.1+build.7").unwrap();
    assert!(v.reads_back());
    for path in ["Cargo.toml", "pyproject.toml", "nested/dir/Cargo.toml"] {
        let written = update_version_file(path, Some(CARGO_TOML), &v, false).unwrap().unwrap();
        assert_eq!(read_version_from_file(path, Some(&written)), Ok(v.clone()));
        assert_eq!(written, CARGO_TOML.replace("1.0.0", "3.1.4-rc.1+build.7"));
    }
    let written =
        update_version_file("package.json", Some(PACKAGE_JSON), &v, false).unwrap().unwrap();
    assert_eq!(read_version_from_file("package.json", Some(&written)), Ok(v));
}
