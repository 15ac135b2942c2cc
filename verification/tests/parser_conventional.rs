use unduler::parsers::commit_from_captures;
use unduler::{CommitParser, ConventionalParser, Plugin, RawCommit, PACKAGE_VERSION};

fn now() -> i64 {
    chrono::Utc::now().timestamp()
}

fn make_raw(message: &str) -> RawCommit {
    RawCommit::new("abc123", message, "Test", "test@test.com", now())
}

#[test]
fn test_simple_commit() {
    let parser = ConventionalParser::new();
    let raw = make_raw("feat: add new feature");
    let parsed = parser.parse(&raw).unwrap();

    assert_eq!(parsed.commit_type, "feat");
    assert!(parsed.scope.is_none() || parsed.scope.as_deref() == Some(""));
    assert_eq!(parsed.message, "add new feature");
    assert!(!parsed.breaking);
}

#[test]
fn test_with_scope() {
    let parser = ConventionalParser::new();
    let raw = make_raw("fix(parser): handle edge case");
    let parsed = parser.parse(&raw).unwrap();

    assert_eq!(parsed.commit_type, "fix");
    assert_eq!(parsed.scope.as_deref(), Some("parser"));
    assert_eq!(parsed.message, "handle edge case");
}

#[test]
fn lib_test_breaking_change() {
    let parser = ConventionalParser::new();
    let raw = make_raw("feat(api)!: redesign endpoints");
    let parsed = parser.parse(&raw).unwrap();

    assert_eq!(parsed.commit_type, "feat");
    assert!(parsed.breaking);
}

#[test]
fn test_invalid_commit() {
    let parser = ConventionalParser::new();
    let raw = make_raw("random commit message");
    assert!(parser.parse(&raw).is_none());
}

#[test]
fn conventional_test_default() {
    let parser = ConventionalParser;
    let raw = make_raw("fix: bug");
    let parsed = parser.parse(&raw).unwrap();
    assert_eq!(parsed.commit_type, "fix");
    let parsed = ConventionalParser::default().parse(&raw).unwrap();
    assert_eq!(parsed.commit_type, "fix");
}

#[test]
fn conventional_test_plugin_name() {
    let parser = ConventionalParser::new();
    assert_eq!(parser.name(), "conventional");
}

#[test]
fn conventional_test_plugin_version() {
    let parser = ConventionalParser::new();
    assert_eq!(parser.version(), PACKAGE_VERSION);
}

#[test]
fn conventional_test_plugin_description() {
    let parser = ConventionalParser::new();
    assert!(!parser.description().is_empty());
}

#[test]
fn test_breaking_without_scope() {
    let parser = ConventionalParser::new();
    let raw = make_raw("feat!: breaking feature");
    let parsed = parser.parse(&raw).unwrap();

    assert_eq!(parsed.commit_type, "feat");
    assert!(parsed.breaking);
    assert_eq!(parsed.message, "breaking feature");
}

#[test]
fn lib_test_can_parse_valid() {
    let parser = ConventionalParser::new();
    let raw = make_raw("feat: something");
    assert!(parser.can_parse(&raw));
}

#[test]
fn lib_test_can_parse_invalid() {
    let parser = ConventionalParser::new();
    let raw = make_raw("invalid");
    assert!(!parser.can_parse(&raw));
}

#[test]
fn lib_test_preserves_author() {
    let parser = ConventionalParser::new();
    let raw = RawCommit::new("hash123", "feat: test", "John Doe", "john@test.com", now());
    let parsed = parser.parse(&raw).unwrap();
    assert_eq!(parsed.author, "John Doe");
}

#[test]
fn test_preserves_hash() {
    let parser = ConventionalParser::new();
    let raw = RawCommit::new("abc123def", "feat: test", "Author", "a@b.com", now());
    let parsed = parser.parse(&raw).unwrap();
    assert_eq!(parsed.hash, "abc123def");
}

#[test]
fn test_preserves_date() {
    let parser = ConventionalParser::new();
    let raw = RawCommit::new("abc123def", "feat: test", "Author", "a@b.com", 1_700_000_000);
    let parsed = parser.parse(&raw).unwrap();
    assert_eq!(parsed.date, 1_700_000_000);
}

#[test]
fn test_various_commit_types() {
    let parser = ConventionalParser::new();

    for commit_type in [
        "docs", "style", "refactor", "perf", "test", "ci", "chore", "revert",
    ] {
        let raw = make_raw(&format!("{commit_type}: test message"));
        let parsed = parser.parse(&raw).unwrap();
        assert_eq!(parsed.commit_type, commit_type);
    }
}

#[test]
fn test_missing_colon() {
    let parser = ConventionalParser::new();
    let raw = make_raw("feat add feature");
    assert!(parser.parse(&raw).is_none());
}

#[test]
fn test_missing_space_after_colon() {
    let parser = ConventionalParser::new();
    let raw = make_raw("feat:add feature");
    assert!(parser.parse(&raw).is_none());
}

#[test]
fn lib_test_empty_message() {
    let parser = ConventionalParser::new();
    let raw = make_raw("");
    assert!(parser.parse(&raw).is_none());
}

#[test]
fn test_only_the_subject_is_parsed() {
    let parser = ConventionalParser::new();
    let raw = make_raw("fix(core): first line\n\nfeat!: not the subject");
    let parsed = parser.parse(&raw).unwrap();
    assert_eq!(parsed.commit_type, "fix");
    assert_eq!(parsed.scope.as_deref(), Some("core"));
    assert_eq!(parsed.message, "first line");
    assert!(!parsed.breaking);
}

#[test]
fn test_commit_from_captures() {
    let raw = make_raw("ignored");
    let some = |s: &str| Some(s.to_string());
    let parsed = commit_from_captures(
        &raw,
        Some(vec![some("feat"), some("api"), some("!"), some("add")]),
    )
    .unwrap();
    assert_eq!(parsed.commit_type, "feat");
    assert_eq!(parsed.scope.as_deref(), Some("api"));
    assert!(parsed.breaking);
    assert_eq!(parsed.message, "add");
    assert_eq!(parsed.hash, "abc123");
    assert_eq!(parsed.author, "Test");
    assert!(parsed.emoji.is_none());
    assert!(parsed.metadata.is_empty());

    let parsed = commit_from_captures(&raw, Some(vec![some("fix"), None, None, some("bug")]))
        .unwrap();
    assert!(parsed.scope.is_none());
    assert!(!parsed.breaking);

    assert!(commit_from_captures(&raw, None).is_none());
    assert!(commit_from_captures(&raw, Some(vec![None, None, None, some("x")])).is_none());
    assert!(commit_from_captures(&raw, Some(vec![some("x"), None, None, None])).is_none());
}
