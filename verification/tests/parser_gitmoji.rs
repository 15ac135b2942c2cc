use unduler::gitmoji::{
    choose_classification, extract_gitmoji, gitmojis, is_emoji_char, is_emoji_modifier,
    ExtractedGitmoji,
};
use unduler::{
    CommitParser, ConventionalGitmojiParser, GitmojiParserConfig, ParsedCommit, Plugin,
    RawCommit, PACKAGE_VERSION,
};

const SPARKLES: &str = "\u{2728}";
const TADA: &str = "\u{1F389}";
const BUG: &str = "\u{1F41B}";
const FIRE: &str = "\u{1F525}";
const ROCKET: &str = "\u{1F680}";
const LOCK: &str = "\u{1F512}";
const RECYCLE: &str = "\u{267B}\u{FE0F}";
const ARROW_UP: &str = "\u{2B06}\u{FE0F}";
const BOOM: &str = "\u{1F4A5}";
const MEMO: &str = "\u{1F4DD}";
const UNICORN: &str = "\u{1F984}";
const AMBULANCE: &str = "\u{1F691}";

fn now() -> i64 {
    chrono::Utc::now().timestamp()
}

fn make_raw(message: &str) -> RawCommit {
    RawCommit::new("abc123", message, "Test", "test@test.com", now())
}

#[test]
fn test_emoji_with_conventional() {
    let parser = ConventionalGitmojiParser::new();
    let raw = make_raw(&format!("{SPARKLES} feat(api): add new endpoint"));
    let parsed = parser.parse(&raw).unwrap();

    assert_eq!(parsed.commit_type, "feat");
    assert_eq!(parsed.emoji.as_deref(), Some(SPARKLES));
    assert_eq!(parsed.message, "add new endpoint");
}

#[test]
fn test_text_code_with_conventional() {
    let parser = ConventionalGitmojiParser::new();
    let raw = make_raw(":sparkles: feat(api): add new endpoint");
    let parsed = parser.parse(&raw).unwrap();

    assert_eq!(parsed.commit_type, "feat");
    assert_eq!(parsed.emoji.as_deref(), Some(SPARKLES));
    assert_eq!(parsed.message, "add new endpoint");
}

#[test]
fn test_emoji_only() {
    let parser = ConventionalGitmojiParser::new();
    let raw = make_raw(&format!("{SPARKLES} add new feature"));
    let parsed = parser.parse(&raw).unwrap();

    assert_eq!(parsed.commit_type, "feat");
    assert_eq!(parsed.emoji.as_deref(), Some(SPARKLES));
    assert_eq!(parsed.message, "add new feature");
}

#[test]
fn test_text_code_only() {
    let parser = ConventionalGitmojiParser::new();
    let raw = make_raw(":bug: fix login issue");
    let parsed = parser.parse(&raw).unwrap();

    assert_eq!(parsed.commit_type, "fix");
    assert_eq!(parsed.emoji.as_deref(), Some(BUG));
    assert_eq!(parsed.message, "fix login issue");
}

#[test]
fn test_conventional_without_emoji() {
    let parser = ConventionalGitmojiParser::new();
    let raw = make_raw("fix: resolve bug");
    let parsed = parser.parse(&raw).unwrap();

    assert_eq!(parsed.commit_type, "fix");
    assert!(parsed.emoji.is_none());
}

#[test]
fn test_various_gitmojis() {
    let parser = ConventionalGitmojiParser::new();

    let test_cases = [
        (format!("{BUG} fix a bug"), "fix", BUG),
        (":fire: remove dead code".to_string(), "chore", FIRE),
        (format!("{ROCKET} deploy to production"), "release", ROCKET),
        (":lock: fix security issue".to_string(), "security", LOCK),
        (format!("{RECYCLE} refactor authentication"), "refactor", RECYCLE),
        (":arrow_up: upgrade dependencies".to_string(), "deps", ARROW_UP),
        (format!("{BOOM} breaking api change"), "breaking", BOOM),
        (":memo: update readme".to_string(), "docs", MEMO),
    ];

    for (message, expected_type, expected_emoji) in test_cases {
        let raw = make_raw(&message);
        let parsed = parser.parse(&raw).unwrap();
        assert_eq!(parsed.commit_type, expected_type, "Failed for: {message}");
        assert_eq!(
            parsed.emoji.as_deref(),
            Some(expected_emoji),
            "Failed for: {message}"
        );
    }
}

#[test]
fn test_unknown_emoji_non_strict() {
    let parser = ConventionalGitmojiParser::new();
    // Unknown emoji should still be extracted but won't infer type
    let raw = make_raw(&format!("{UNICORN} feat: add unicorn support"));
    let parsed = parser.parse(&raw).unwrap();

    assert_eq!(parsed.commit_type, "feat");
    assert_eq!(parsed.emoji.as_deref(), Some(UNICORN));
}

#[test]
fn test_unknown_text_code() {
    let parser = ConventionalGitmojiParser::new();
    // Unknown text code should not be treated as gitmoji
    let raw = make_raw(":unknown: feat: something");
    let parsed = parser.parse(&raw);

    // Fails: `:unknown:` is no gitmoji, and the whole subject is no conventional commit
    assert!(parsed.is_none());
}

#[test]
fn gitmoji_test_default() {
    let parser = ConventionalGitmojiParser::default();
    let raw = make_raw(&format!("{SPARKLES} feat: test"));
    let parsed = parser.parse(&raw).unwrap();
    assert_eq!(parsed.commit_type, "feat");
}

#[test]
fn gitmoji_test_plugin_name() {
    let parser = ConventionalGitmojiParser::new();
    assert_eq!(parser.name(), "gitmoji");
}

#[test]
fn gitmoji_test_plugin_version() {
    let parser = ConventionalGitmojiParser::new();
    assert_eq!(parser.version(), PACKAGE_VERSION);
}

#[test]
fn gitmoji_test_plugin_description() {
    let parser = ConventionalGitmojiParser::new();
    assert!(!parser.description().is_empty());
}

#[test]
fn test_with_config_strict_mode() {
    let config = GitmojiParserConfig {
        infer_type_from_emoji: true,
        strict_emoji: true,
    };
    let parser = ConventionalGitmojiParser::with_config(config);

    // Unknown emoji should fail in strict mode
    let raw = make_raw(&format!("{UNICORN} add unicorn"));
    assert!(parser.parse(&raw).is_none());
}

#[test]
fn test_with_config_no_infer() {
    let config = GitmojiParserConfig {
        infer_type_from_emoji: false,
        strict_emoji: false,
    };
    let parser = ConventionalGitmojiParser::with_config(config);

    // Should not infer type from emoji alone
    let raw = make_raw(&format!("{SPARKLES} add new feature"));
    // Fails: what follows the emoji is no conventional commit
    assert!(parser.parse(&raw).is_none());
}

#[test]
fn test_config_default() {
    let config = GitmojiParserConfig::default();
    assert!(config.infer_type_from_emoji);
    assert!(!config.strict_emoji);
}

#[test]
fn test_can_parse_valid() {
    let parser = ConventionalGitmojiParser::new();
    let raw = make_raw(&format!("{SPARKLES} feat: something"));
    assert!(parser.can_parse(&raw));
}

#[test]
fn test_can_parse_invalid() {
    let parser = ConventionalGitmojiParser::new();
    let raw = make_raw("not a valid commit");
    assert!(!parser.can_parse(&raw));
}

#[test]
fn test_preserves_author() {
    let parser = ConventionalGitmojiParser::new();
    let raw = RawCommit::new(
        "hash",
        &format!("{SPARKLES} feat: test"),
        "John Doe",
        "john@test.com",
        now(),
    );
    let parsed = parser.parse(&raw).unwrap();
    assert_eq!(parsed.author, "John Doe");
}

#[test]
fn test_emoji_with_variation_selector() {
    let parser = ConventionalGitmojiParser::new();
    // Ambulance with variation selector
    let raw = make_raw(&format!("{AMBULANCE}\u{FE0F} fix: urgent bug"));
    let parsed = parser.parse(&raw).unwrap();
    assert_eq!(parsed.commit_type, "fix");
    assert_eq!(parsed.message, "urgent bug");
    assert_eq!(parsed.emoji, Some(format!("{AMBULANCE}\u{FE0F}")));
}

#[test]
fn test_all_feature_emojis() {
    let parser = ConventionalGitmojiParser::new();

    for emoji in [SPARKLES, TADA, "\u{1F6A9}", "\u{1F454}", "\u{1F9BA}"] {
        let raw = make_raw(&format!("{emoji} add feature"));
        let parsed = parser.parse(&raw);
        assert!(parsed.is_some(), "Failed for emoji: {emoji}");
        assert_eq!(parsed.unwrap().commit_type, "feat", "Failed for emoji: {emoji}");
    }
}

#[test]
fn test_is_emoji_char() {
    assert!(is_emoji_char('\u{2728}'));
    assert!(is_emoji_char('\u{1F41B}'));
    assert!(!is_emoji_char('a'));
    assert!(!is_emoji_char('1'));
}

#[test]
fn test_is_emoji_modifier() {
    assert!(is_emoji_modifier('\u{FE0F}')); // Variation Selector-16
    assert!(is_emoji_modifier('\u{200D}')); // Zero Width Joiner
    assert!(!is_emoji_modifier('a'));
}

#[test]
fn test_empty_message() {
    let parser = ConventionalGitmojiParser::new();
    let raw = make_raw("");
    assert!(parser.parse(&raw).is_none());
}

#[test]
fn test_emoji_with_scope_and_breaking() {
    let parser = ConventionalGitmojiParser::new();
    let raw = make_raw(&format!("{BOOM} feat(api)!: breaking change"));
    let parsed = parser.parse(&raw).unwrap();

    assert_eq!(parsed.commit_type, "feat");
    assert!(parsed.breaking);
    assert_eq!(parsed.scope.as_deref(), Some("api"));
    assert_eq!(parsed.emoji.as_deref(), Some(BOOM));
}

#[test]
fn test_extract_gitmoji() {
    let found = extract_gitmoji(":sparkles:   add it").unwrap();
    assert_eq!(found.emoji, SPARKLES);
    assert_eq!(found.rest, "add it");

    // A text code that has two entries gives the emoji of the later one.
    let found = extract_gitmoji(":ambulance: now").unwrap();
    assert_eq!(found.emoji, AMBULANCE);

    // An unknown emoji takes the modifiers that follow it along.
    let found = extract_gitmoji(&format!("{UNICORN}\u{FE0F}\u{200D} rest")).unwrap();
    assert_eq!(found.emoji, format!("{UNICORN}\u{FE0F}\u{200D}"));
    assert_eq!(found.rest, "rest");

    assert!(extract_gitmoji("plain text").is_none());
    assert!(extract_gitmoji(":nothing here").is_none());
    assert!(extract_gitmoji("").is_none());
}

#[test]
fn test_gitmoji_table() {
    let table = gitmojis();
    assert_eq!(table.len(), 89);
    assert_eq!(table[0].emoji, SPARKLES);
    assert_eq!(table[0].code, ":sparkles:");
    assert_eq!(table[0].commit_type, "feat");
    assert_eq!(table[88].code, ":technologist:");
    assert_eq!(table[88].commit_type, "dx");
    assert_eq!(unduler::gitmoji::emoji_commit_type(ROCKET), Some("release"));
    assert_eq!(unduler::gitmoji::emoji_commit_type(UNICORN), None);
}

fn reading(commit_type: &str, message: &str) -> ParsedCommit {
    ParsedCommit {
        hash: "abc123".to_string(),
        commit_type: commit_type.to_string(),
        scope: Some("api".to_string()),
        message: message.to_string(),
        breaking: true,
        emoji: None,
        metadata: vec![("k".to_string(), "v".to_string())],
        author: "Test".to_string(),
        date: 7,
    }
}

fn found(emoji: &str, rest: &str) -> Option<ExtractedGitmoji> {
    Some(ExtractedGitmoji { emoji: emoji.to_string(), rest: rest.to_string() })
}

#[test]
fn test_choose_classification_prefers_the_rest() {
    let raw = RawCommit::new("abc123", "whatever", "Test", "test@test.com", 7);
    let config = GitmojiParserConfig { infer_type_from_emoji: true, strict_emoji: false };
    let chosen = choose_classification(
        config,
        &raw,
        found(UNICORN, "feat(api)!: x"),
        Some(reading("feat", "x")),
        Some(reading("fix", "y")),
    );
    let mut expected = reading("feat", "x");
    expected.emoji = Some(UNICORN.to_string());
    assert_eq!(chosen, Some(expected));
}

#[test]
fn test_choose_classification_infers_from_a_known_emoji() {
    let raw = RawCommit::new("abc123", "whatever", "Test", "test@test.com", 7);
    let config = GitmojiParserConfig { infer_type_from_emoji: true, strict_emoji: false };
    let chosen = choose_classification(config, &raw, found(BUG, "mend it"), None, None);
    assert_eq!(
        chosen,
        Some(ParsedCommit {
            hash: "abc123".to_string(),
            commit_type: "fix".to_string(),
            scope: None,
            message: "mend it".to_string(),
            breaking: false,
            emoji: Some(BUG.to_string()),
            metadata: Vec::new(),
            author: "Test".to_string(),
            date: 7,
        })
    );
}

#[test]
fn test_choose_classification_falls_back_to_the_whole() {
    let raw = RawCommit::new("abc123", "whatever", "Test", "test@test.com", 7);
    let lenient = GitmojiParserConfig { infer_type_from_emoji: true, strict_emoji: false };
    let literal = GitmojiParserConfig { infer_type_from_emoji: false, strict_emoji: false };
    let strict = GitmojiParserConfig { infer_type_from_emoji: true, strict_emoji: true };
    let whole = || Some(reading("fix", "y"));
    // no gitmoji: the reading of the rest is not looked at
    assert_eq!(
        choose_classification(lenient, &raw, None, Some(reading("feat", "x")), whole()),
        whole()
    );
    // an unknown emoji gives no type
    assert_eq!(choose_classification(lenient, &raw, found(UNICORN, "x"), None, whole()), whole());
    // a known emoji gives none either where the configuration forbids it
    assert_eq!(choose_classification(literal, &raw, found(BUG, "x"), None, whole()), whole());
    // strict mode refuses an unknown emoji whatever was read
    assert_eq!(
        choose_classification(strict, &raw, found(UNICORN, "x"), Some(reading("feat", "x")), whole()),
        None
    );
}
