use unduler::cli::{bump_summary, install_command, suggest_plugins};
use unduler::{generate_config, BumpType, BumpTypeArg, ParserType, ProjectType, Version};

#[test]
fn test_parser_type_as_config_name() {
    assert_eq!(ParserType::Conventional.as_config_name(), "conventional");
    assert_eq!(
        ParserType::ConventionalGitmoji.as_config_name(),
        "conventional-gitmoji"
    );
    assert_eq!(ParserType::Regex.as_config_name(), "regex");
    assert_eq!(ParserType::default(), ParserType::Conventional);
}

#[test]
fn test_project_type_version_files() {
    assert_eq!(ProjectType::Rust.version_files(), vec!["Cargo.toml"]);
    assert_eq!(ProjectType::Node.version_files(), vec!["package.json"]);
    assert_eq!(
        ProjectType::RustAndNode.version_files(),
        vec!["Cargo.toml", "package.json"]
    );
    assert!(ProjectType::Unknown.version_files().is_empty());
}

#[test]
fn test_project_type_description() {
    assert_eq!(ProjectType::Rust.description(), "Rust");
    assert_eq!(ProjectType::Node.description(), "Node.js");
    assert_eq!(ProjectType::RustAndNode.description(), "Rust + Node.js");
    assert_eq!(ProjectType::Unknown.description(), "Unknown");
}

#[test]
fn test_project_type_detect() {
    assert_eq!(ProjectType::detect(true, true), ProjectType::RustAndNode);
    assert_eq!(ProjectType::detect(true, false), ProjectType::Rust);
    assert_eq!(ProjectType::detect(false, true), ProjectType::Node);
    assert_eq!(ProjectType::detect(false, false), ProjectType::Unknown);
}

#[test]
fn test_generate_config_conventional() {
    let config = generate_config(ParserType::Conventional, ProjectType::Rust);
    assert!(config.contains("name = \"conventional\""));
    assert!(config.contains("files = [\"Cargo.toml\"]"));
    assert!(config.contains("tag_prefix = \"v\""));
    assert!(config.contains("output = \"CHANGELOG.md\""));
    assert_eq!(
        config,
        "[parser]\nname = \"conventional\"\n\n[version]\ntag_prefix = \"v\"\nfiles = [\"Cargo.toml\"]\n\n[changelog]\noutput = \"CHANGELOG.md\"\n"
    );
}

#[test]
fn test_generate_config_gitmoji() {
    let config = generate_config(ParserType::ConventionalGitmoji, ProjectType::Node);
    assert!(config.contains("name = \"conventional-gitmoji\""));
    assert!(config.contains("[parser.conventional-gitmoji]"));
    assert!(config.contains("infer_type_from_emoji = true"));
    assert!(config.contains("files = [\"package.json\"]"));
}

#[test]
fn test_generate_config_regex() {
    let config = generate_config(ParserType::Regex, ProjectType::Unknown);
    assert!(config.contains("name = \"regex\""));
    assert!(config.contains("[parser.regex]"));
    assert!(config.contains("# pattern ="));
    assert!(!config.contains("files = ")); // No version files for unknown
    assert!(config.contains(
        "# pattern = \"^(?P<type>\\\\w+)(?:\\\\((?P<scope>\\\\w+)\\\\))?:\\\\s+(?P<message>.+)$\"\n"
    ));
}

#[test]
fn test_generate_config_hybrid_project() {
    let config = generate_config(ParserType::Conventional, ProjectType::RustAndNode);
    assert!(config.contains("files = [\"Cargo.toml\", \"package.json\"]"));
}

#[test]
fn test_generated_config_is_valid_toml() {
    for parser in [
        ParserType::Conventional,
        ParserType::ConventionalGitmoji,
        ParserType::Regex,
    ] {
        for project in [
            ProjectType::Rust,
            ProjectType::Node,
            ProjectType::RustAndNode,
            ProjectType::Unknown,
        ] {
            let config = generate_config(parser, project);
            let table: toml::Table = toml::from_str(&config).unwrap();
            assert_eq!(
                table["parser"]["name"].as_str(),
                Some(parser.as_config_name())
            );
            assert_eq!(table["version"]["tag_prefix"].as_str(), Some("v"));
        }
    }
}

#[test]
fn test_suggest_plugins() {
    assert_eq!(
        suggest_plugins(ParserType::Conventional, ProjectType::Rust),
        vec![
            "unduler-parser-conventional",
            "unduler-bumper-semver",
            "unduler-formatter-keepachangelog",
            "unduler-hook-cargo"
        ]
    );
    assert_eq!(
        suggest_plugins(ParserType::ConventionalGitmoji, ProjectType::RustAndNode),
        vec![
            "unduler-parser-gitmoji",
            "unduler-bumper-semver",
            "unduler-formatter-keepachangelog",
            "unduler-hook-cargo",
            "unduler-hook-npm"
        ]
    );
    let plugins = suggest_plugins(ParserType::Regex, ProjectType::Unknown);
    assert_eq!(plugins.len(), 3);
    assert_eq!(
        install_command(&plugins),
        "unduler plugin install parser-regex bumper-semver formatter-keepachangelog"
    );
}

#[test]
fn test_bump_type_arg() {
    assert_eq!(BumpTypeArg::Major.to_bump_type(), BumpType::Major);
    assert_eq!(BumpTypeArg::Minor.to_bump_type(), BumpType::Minor);
    assert_eq!(BumpTypeArg::Patch.to_bump_type(), BumpType::Patch);
}

#[test]
fn test_bump_summary() {
    let from = Version::new(1, 0, 0);
    let to = Version::new(1, 0, 1);
    assert_eq!(
        bump_summary(&from, &to, false, 1, 0),
        "Bumped version 1.0.0 -> 1.0.1 (1 file(s) updated)"
    );
    assert_eq!(
        bump_summary(&from, &to, true, 0, 0),
        "Dry run: would bump version 1.0.0 -> 1.0.1"
    );
    assert_eq!(
        bump_summary(&from, &to, false, 2, 10),
        "Partially bumped version 1.0.0 -> 1.0.1 (2 file(s) updated, 10 error(s))"
    );
}
