use unduler::commit::get_entry;
use unduler::{
    CommitParser, FieldMapping, Plugin, RawCommit, RegexParser, RegexParserConfig, PACKAGE_VERSION,
};

fn now() -> i64 {
    chrono::Utc::now().timestamp()
}

fn make_raw(message: &str) -> RawCommit {
    RawCommit::new("abc123", message, "Test", "test@test.com", now())
}

fn simple_config() -> RegexParserConfig {
    RegexParserConfig {
        pattern: r"^(?P<type>\w+):\s+(?P<message>.+)$".to_string(),
        mapping: FieldMapping {
            commit_type: "type".to_string(),
            scope: None,
            message: "message".to_string(),
            metadata: Vec::new(),
        },
        validation: Vec::new(),
    }
}

fn conventional_config() -> RegexParserConfig {
    RegexParserConfig {
        pattern: r"^(?P<type>\w+)(?:\((?P<scope>\w+)\))?:\s+(?P<message>.+)$".to_string(),
        mapping: FieldMapping {
            commit_type: "type".to_string(),
            scope: Some("scope".to_string()),
            message: "message".to_string(),
            metadata: Vec::new(),
        },
        validation: Vec::new(),
    }
}

#[test]
fn test_new_valid_regex() {
    let config = simple_config();
    let parser = RegexParser::new(config);
    assert!(parser.is_ok());
}

#[test]
fn test_new_invalid_regex() {
    let config = RegexParserConfig {
        pattern: r"^(?P<type".to_string(), // Invalid regex
        mapping: FieldMapping::default(),
        validation: Vec::new(),
    };
    let parser = RegexParser::new(config);
    assert!(parser.is_err());
}

#[test]
fn regex_test_plugin_name() {
    let parser = RegexParser::new(simple_config()).unwrap();
    assert_eq!(parser.name(), "regex");
}

#[test]
fn regex_test_plugin_version() {
    let parser = RegexParser::new(simple_config()).unwrap();
    assert_eq!(parser.version(), PACKAGE_VERSION);
}

#[test]
fn regex_test_plugin_description() {
    let parser = RegexParser::new(simple_config()).unwrap();
    assert_eq!(
        parser.description(),
        "Parses commits using custom regex patterns"
    );
}

#[test]
fn test_parse_simple() {
    let parser = RegexParser::new(simple_config()).unwrap();
    let raw = make_raw("feat: add new feature");
    let parsed = parser.parse(&raw).unwrap();

    assert_eq!(parsed.commit_type, "feat");
    assert_eq!(parsed.message, "add new feature");
    assert!(parsed.scope.is_none());
}

#[test]
fn test_parse_with_scope() {
    let parser = RegexParser::new(conventional_config()).unwrap();
    let raw = make_raw("feat(api): add endpoint");
    let parsed = parser.parse(&raw).unwrap();

    assert_eq!(parsed.commit_type, "feat");
    assert_eq!(parsed.scope.as_deref(), Some("api"));
    assert_eq!(parsed.message, "add endpoint");
}

#[test]
fn test_parse_without_scope() {
    let parser = RegexParser::new(conventional_config()).unwrap();
    let raw = make_raw("fix: resolve bug");
    let parsed = parser.parse(&raw).unwrap();

    assert_eq!(parsed.commit_type, "fix");
    assert!(parsed.scope.is_none());
    assert_eq!(parsed.message, "resolve bug");
}

#[test]
fn test_parse_no_match() {
    let parser = RegexParser::new(simple_config()).unwrap();
    let raw = make_raw("invalid commit message");
    let parsed = parser.parse(&raw);

    assert!(parsed.is_none());
}

#[test]
fn test_parse_empty_message() {
    let parser = RegexParser::new(simple_config()).unwrap();
    let raw = make_raw("");
    let parsed = parser.parse(&raw);

    assert!(parsed.is_none());
}

#[test]
fn test_jira_style() {
    let config = RegexParserConfig {
        pattern: r"^(?P<ticket>[A-Z]+-\d+)\s+(?P<type>\w+)(?:\((?P<scope>\w+)\))?:\s+(?P<message>.+)$".to_string(),
        mapping: FieldMapping {
            commit_type: "type".to_string(),
            scope: Some("scope".to_string()),
            message: "message".to_string(),
            metadata: vec![("ticket".to_string(), "ticket".to_string())],
        },
        validation: Vec::new(),
    };

    let parser = RegexParser::new(config).unwrap();
    let raw = make_raw("PROJ-123 feat(api): add endpoint");
    let parsed = parser.parse(&raw).unwrap();

    assert_eq!(parsed.commit_type, "feat");
    assert_eq!(parsed.scope.as_deref(), Some("api"));
    assert_eq!(parsed.message, "add endpoint");
    assert_eq!(
        get_entry(&parsed.metadata, "ticket").as_deref(),
        Some("PROJ-123")
    );
}

#[test]
fn test_validation_allowed_types() {
    let config = RegexParserConfig {
        pattern: r"^(?P<type>\w+):\s+(?P<message>.+)$".to_string(),
        mapping: FieldMapping {
            commit_type: "type".to_string(),
            scope: None,
            message: "message".to_string(),
            metadata: Vec::new(),
        },
        validation: vec![("type".to_string(), vec!["feat".to_string(), "fix".to_string()])],
    };

    let parser = RegexParser::new(config).unwrap();

    // Valid type
    let raw = make_raw("feat: add feature");
    assert!(parser.parse(&raw).is_some());

    // Invalid type
    let raw = make_raw("chore: cleanup");
    assert!(parser.parse(&raw).is_none());
}

#[test]
fn test_validation_empty_allowed() {
    let config = RegexParserConfig {
        pattern: r"^(?P<type>\w+):\s+(?P<message>.+)$".to_string(),
        mapping: FieldMapping::default(),
        validation: vec![("type".to_string(), vec![])].into(),
    };

    let parser = RegexParser::new(config).unwrap();
    let raw = make_raw("feat: add feature");

    assert!(parser.parse(&raw).is_none());
}

#[test]
fn test_validate_no_rules() {
    let parser = RegexParser::new(simple_config()).unwrap();
    assert!(parser.validate("type", "any_value"));
}

#[test]
fn test_validate_with_rules_pass() {
    let config = RegexParserConfig {
        pattern: r"^(?P<type>\w+):\s+(?P<message>.+)$".to_string(),
        mapping: FieldMapping::default(),
        validation: vec![("type".to_string(), vec!["feat".to_string(), "fix".to_string()])],
    };

    let parser = RegexParser::new(config).unwrap();
    assert!(parser.validate("type", "feat"));
    assert!(parser.validate("type", "fix"));
}

#[test]
fn test_validate_with_rules_fail() {
    let config = RegexParserConfig {
        pattern: r"^(?P<type>\w+):\s+(?P<message>.+)$".to_string(),
        mapping: FieldMapping::default(),
        validation: vec![("type".to_string(), vec!["feat".to_string(), "fix".to_string()])],
    };

    let parser = RegexParser::new(config).unwrap();
    assert!(!parser.validate("type", "chore"));
}

#[test]
fn test_multiple_metadata_fields() {
    let config = RegexParserConfig {
        pattern:
            r"^(?P<ticket>[A-Z]+-\d+)\s+(?P<priority>P\d)\s+(?P<type>\w+):\s+(?P<message>.+)$"
                .to_string(),
        mapping: FieldMapping {
            commit_type: "type".to_string(),
            scope: None,
            message: "message".to_string(),
            metadata: vec![
                ("ticket".to_string(), "ticket".to_string()),
                ("priority".to_string(), "priority".to_string()),
            ],
        },
        validation: Vec::new(),
    };

    let parser = RegexParser::new(config).unwrap();
    let raw = make_raw("PROJ-123 P1 feat: add feature");
    let parsed = parser.parse(&raw).unwrap();

    assert_eq!(
        get_entry(&parsed.metadata, "ticket").as_deref(),
        Some("PROJ-123")
    );
    assert_eq!(
        get_entry(&parsed.metadata, "priority").as_deref(),
        Some("P1")
    );
}

#[test]
fn test_preserves_author_and_date() {
    let parser = RegexParser::new(simple_config()).unwrap();
    let now = now();
    let raw = RawCommit::new("hash123", "feat: test", "John Doe", "john@example.com", now);
    let parsed = parser.parse(&raw).unwrap();

    assert_eq!(parsed.author, "John Doe");
    assert_eq!(parsed.date, now);
    assert_eq!(parsed.hash, "hash123");
}

#[test]
fn test_default_field_mapping() {
    let mapping = FieldMapping::default();
    // The default of the type is the empty mapping
    assert_eq!(mapping.commit_type, "");
    assert_eq!(mapping.message, "");
    assert!(mapping.scope.is_none());
    assert!(mapping.metadata.is_empty());
}

#[test]
fn test_missing_type_capture_group() {
    let config = RegexParserConfig {
        pattern: r"^(?P<message>.+)$".to_string(),
        mapping: FieldMapping {
            commit_type: "type".to_string(),
            scope: None,
            message: "message".to_string(),
            metadata: Vec::new(),
        },
        validation: Vec::new(),
    };

    let parser = RegexParser::new(config).unwrap();
    let raw = make_raw("some message");
    let parsed = parser.parse(&raw);

    assert!(parsed.is_none());
}

#[test]
fn test_missing_message_capture_group() {
    let config = RegexParserConfig {
        pattern: r"^(?P<type>\w+):$".to_string(),
        mapping: FieldMapping {
            commit_type: "type".to_string(),
            scope: None,
            message: "message".to_string(),
            metadata: Vec::new(),
        },
        validation: Vec::new(),
    };

    let parser = RegexParser::new(config).unwrap();
    let raw = make_raw("feat:");
    let parsed = parser.parse(&raw);

    assert!(parsed.is_some());
    assert_eq!(parsed.unwrap().message, "");
}

#[test]
fn test_optional_metadata_not_captured() {
    let config = RegexParserConfig {
        pattern: r"^(?P<type>\w+):\s+(?P<message>.+)$".to_string(),
        mapping: FieldMapping {
            commit_type: "type".to_string(),
            scope: None,
            message: "message".to_string(),
            metadata: vec![("ticket".to_string(), "ticket".to_string())],
        },
        validation: Vec::new(),
    };

    let parser = RegexParser::new(config).unwrap();
    let raw = make_raw("feat: no ticket");
    let parsed = parser.parse(&raw).unwrap();

    assert!(get_entry(&parsed.metadata, "ticket").is_none());
}

#[test]
fn test_default_group_names() {
    assert_eq!(unduler::parsers::default_type(), "type");
    assert_eq!(unduler::parsers::default_message(), "message");
}

#[test]
fn test_invalid_regex_has_a_message() {
    let config = RegexParserConfig {
        pattern: r"^(?P<type".to_string(),
        mapping: FieldMapping::default(),
        validation: Vec::new(),
    };
    let error = RegexParser::new(config).err().unwrap();
    assert!(!error.to_string().is_empty());
}

#[test]
fn test_commit_from_groups_by_position() {
    let config = RegexParserConfig {
        pattern: r"^(?P<type>\w+):\s+(?P<message>.+)$".to_string(),
        mapping: FieldMapping {
            commit_type: "type".to_string(),
            scope: Some("scope".to_string()),
            message: "message".to_string(),
            metadata: vec![
                ("ticket".to_string(), "ticket".to_string()),
                ("priority".to_string(), "priority".to_string()),
            ],
        },
        validation: vec![("type".to_string(), vec!["feat".to_string()])],
    };
    let parser = RegexParser::new(config).unwrap();
    let raw = make_raw("unused");
    let some = |s: &str| Some(s.to_string());
    let parsed = parser
        .commit_from_groups(&raw, &vec![some("feat"), None, some("core"), None, some("high")])
        .unwrap();
    assert_eq!(parsed.commit_type, "feat");
    assert_eq!(parsed.message, "");
    assert_eq!(parsed.scope.as_deref(), Some("core"));
    assert_eq!(parsed.metadata, vec![("priority".to_string(), "high".to_string())]);
    assert!(!parsed.breaking);
    assert!(parser
        .commit_from_groups(&raw, &vec![some("fix"), some("m"), None, None, None])
        .is_none());
    assert!(parser
        .commit_from_groups(&raw, &vec![None, some("m"), None, None, None])
        .is_none());
}
