use unduler::cli::bump_summary;
use unduler::executor::{plan_action, Step};
use unduler::formatter::merge_changelog;
use unduler::parsers::{FieldMapping, RegexParserConfig};
use unduler::release::{check_commits, Action, Event, HookPoint, Stage};
use unduler::selection::regex_parser_config;
use unduler::CommitParser;
use unduler::{
    create_parser, latest_version_tag, update_version_file, ActionResults, BumpStrategy, BumpType,
    ChangelogFormatter, Config, ConfiguredParser, CoreError, FileWriteRequest, FormatterConfig,
    HookAction, KeepAChangelogFormatter, ParsedCommit, Pipeline, PluginError, RawCommit, Release,
    ReleaseManager, SemverBumper, CargoHook, Version, VersionManager,
};

const CARGO_TOML: &str = "[package]\nname = \"demo\"\nversion = \"0.0.0\"\nedition = \"2021\"\n";

fn raw(message: &str) -> RawCommit {
    RawCommit::new("0123456789abcdef", message, "Dev", "dev@example.com", 1_710_000_000)
}

fn pipeline() -> Pipeline<ConfiguredParser, SemverBumper, KeepAChangelogFormatter, CargoHook> {
    Pipeline::new(
        create_parser(&Config::default()),
        SemverBumper::new(),
        KeepAChangelogFormatter::new(),
    )
}

/// Drives a release to its end, with hooks that succeed, and returns the
/// actions in order.
fn run_release(
    tags: &[&str],
    messages: &[&str],
    dry_run: bool,
    forced: Option<BumpType>,
    hooks: usize,
) -> Vec<Action> {
    let pipeline = pipeline();
    let tags: Vec<String> = tags.iter().map(|t| t.to_string()).collect();
    let commits: Vec<RawCommit> = messages.iter().map(|m| raw(m)).collect();
    let mut parsed: Vec<ParsedCommit> = Vec::new();
    let mut manager = ReleaseManager::new("v", hooks, dry_run, forced);
    let mut actions = Vec::new();
    let mut event = Event::Opened;
    loop {
        let action = manager.step(event);
        actions.push(action.clone());
        event = match action {
            Action::Discover => {
                let latest = latest_version_tag(&tags, "v");
                Event::Discovered {
                    previous: latest.and_then(|t| VersionManager::new().from_tag(&t, "v")),
                }
            }
            Action::Classify => {
                parsed = pipeline.parse_commits(&commits);
                Event::Classified { parsed: parsed.len() }
            }
            Action::DetermineBump => Event::BumpDetermined {
                bump: pipeline.determine_bump(&parsed),
            },
            Action::RunHook { .. } => Event::HookFinished { outcome: Ok(()) },
            Action::UpdateFiles { .. } => Event::FilesUpdated,
            Action::RenderChangelog { .. } => Event::ChangelogRendered,
            Action::Commit { .. } => Event::Committed,
            Action::CreateTag { .. } => Event::Tagged,
            Action::Finish { .. } | Action::Abort { .. } | Action::Stay => break,
        };
    }
    assert!(manager.is_finished());
    actions
}

fn next_version(actions: &[Action]) -> Option<Version> {
    actions.iter().find_map(|a| match a {
        Action::Finish { version } => Some(version.clone()),
        _ => None,
    })
}

#[test]
fn scenario_fresh_repo_one_feature() {
    let actions = run_release(&[], &["feat: add new feature"], true, None, 0);
    assert_eq!(next_version(&actions), Some(Version::new(0, 1, 0)));
    // In a dry run the update of the version files is shown, not made.
    assert!(actions.contains(&Action::UpdateFiles {
        version: Version::new(0, 1, 0),
        dry_run: true
    }));
    let written =
        update_version_file("Cargo.toml", Some(CARGO_TOML), &Version::new(0, 1, 0), true).unwrap();
    assert_eq!(written, None);
    // The previous version is recorded as 0.0.0.
    assert!(actions.contains(&Action::RenderChangelog {
        version: Version::new(0, 1, 0),
        previous: Version::new(0, 0, 0)
    }));
}

#[test]
fn scenario_patch_bump() {
    let actions = run_release(&["v1.0.0"], &["fix: fix a bug"], false, None, 0);
    assert_eq!(next_version(&actions), Some(Version::new(1, 0, 1)));
    let content = "[package]\nname = \"demo\"\nversion = \"1.0.0\"\n";
    let written =
        update_version_file("Cargo.toml", Some(content), &Version::new(1, 0, 1), false).unwrap();
    assert_eq!(
        written.as_deref(),
        Some("[package]\nname = \"demo\"\nversion = \"1.0.1\"\n")
    );
    let summary = bump_summary(&Version::new(1, 0, 0), &Version::new(1, 0, 1), false, 1, 0);
    assert!(summary.starts_with("Bumped version 1.0.0 -> 1.0.1"));
}

#[test]
fn scenario_breaking_change() {
    let actions = run_release(&["v1.0.0"], &["feat!: breaking API change"], false, None, 0);
    assert_eq!(next_version(&actions), Some(Version::new(2, 0, 0)));
    assert!(actions.contains(&Action::CreateTag {
        name: "v2.0.0".to_string(),
        message: "Release 2.0.0".to_string(),
        dry_run: false
    }));
    assert!(actions.contains(&Action::Commit {
        message: "chore(release): 2.0.0".to_string(),
        dry_run: false
    }));
}

#[test]
fn scenario_no_commits() {
    let actions = run_release(&["v1.0.0"], &[], true, None, 0);
    assert_eq!(
        actions.last(),
        Some(&Action::Abort { error: CoreError::NoCommits })
    );
    assert!(CoreError::NoCommits.to_string().contains("no commits"));
    // Commits that the parser does not accept count for nothing either.
    let actions = run_release(&["v1.0.0"], &["merge branch", "wip"], true, None, 0);
    assert_eq!(
        actions.last(),
        Some(&Action::Abort { error: CoreError::NoCommits })
    );
    // A forced bump kind needs no commits.
    let actions = run_release(&["v1.0.0"], &[], true, Some(BumpType::Minor), 0);
    assert_eq!(next_version(&actions), Some(Version::new(1, 1, 0)));
    // The bump command takes the same decision from the two counts.
    let refused = check_commits(0, 0, None).unwrap_err();
    assert!(refused.to_string().contains("no commits"));
    assert_eq!(check_commits(0, 0, Some(BumpType::Patch)), Ok(()));
}

#[test]
fn test_check_commits() {
    assert_eq!(check_commits(0, 0, None), Err(CoreError::NoCommits));
    assert_eq!(check_commits(3, 0, None), Err(CoreError::NoCommits));
    assert_eq!(check_commits(3, 1, None), Ok(()));
    assert_eq!(check_commits(1, 1, None), Ok(()));
    assert_eq!(check_commits(0, 0, Some(BumpType::Major)), Ok(()));
    assert_eq!(check_commits(3, 0, Some(BumpType::NoBump)), Ok(()));
}

#[test]
fn scenario_changelog_merge() {
    let pipeline = pipeline();
    let commits = pipeline.parse_commits(&[
        raw("feat: add new feature"),
        raw("fix: resolve critical bug"),
    ]);
    let bump = pipeline.determine_bump(&commits);
    let previous = Version::new(0, 1, 0);
    let version = VersionManager::new().next_release(Some(&previous), bump);
    assert_eq!(version, Version::new(0, 2, 0));
    let release = Release::new(version, 1_710_000_000, commits).with_previous_version(previous);
    let entry = pipeline.formatter().format(&release, &FormatterConfig::default());
    let existing = "# Changelog\n\n## [0.1.0] - 2024-01-01\n\n### Added\n\n- first release\n";
    let merged = merge_changelog(existing, &entry);
    assert_eq!(
        merged,
        "# Changelog\n\n\
         ## [0.2.0] - 2024-03-09\n\n\
         ### Added\n\n\
         - add new feature\n\n\
         ### Fixed\n\n\
         - resolve critical bug\n\n\
         ## [0.1.0] - 2024-01-01\n\n### Added\n\n- first release\n"
    );
    assert!(merged.find("## [0.2.0]").unwrap() < merged.find("## [0.1.0]").unwrap());
}

#[test]
fn scenario_path_containment_refusal() {
    let action = HookAction::WriteFile(FileWriteRequest {
        path: "../../etc/passwd".to_string(),
        content: b"root".to_vec(),
    });
    let step = plan_action("/home/user/project", &action);
    assert_eq!(
        step,
        Step::Refuse("path '../../etc/passwd' is outside the repository".to_string())
    );
    let mut results = ActionResults::new();
    if let Step::Refuse(message) = step {
        results.record_refusal(message);
    }
    assert_eq!(
        results.errors,
        vec!["path '../../etc/passwd' is outside the repository".to_string()]
    );
    assert!(results.files_written.is_empty());
    assert!(!results.success());
}

#[test]
fn test_release_runs_the_stages_in_order() {
    let actions = run_release(&["v1.2.3"], &["feat: one", "fix: two"], false, None, 2);
    let version = Version::new(1, 3, 0);
    let hooks = |point: HookPoint| {
        vec![
            Action::RunHook { point, index: 0 },
            Action::RunHook { point, index: 1 },
        ]
    };
    let mut expected = vec![Action::Discover, Action::Classify, Action::DetermineBump];
    expected.extend(hooks(HookPoint::PreBump));
    expected.push(Action::UpdateFiles { version: version.clone(), dry_run: false });
    expected.extend(hooks(HookPoint::PostBump));
    expected.push(Action::RenderChangelog {
        version: version.clone(),
        previous: Version::new(1, 2, 3),
    });
    expected.extend(hooks(HookPoint::PreCommit));
    expected.push(Action::Commit {
        message: "chore(release): 1.3.0".to_string(),
        dry_run: false,
    });
    expected.extend(hooks(HookPoint::PreTag));
    expected.push(Action::CreateTag {
        name: "v1.3.0".to_string(),
        message: "Release 1.3.0".to_string(),
        dry_run: false,
    });
    expected.extend(hooks(HookPoint::PostTag));
    expected.push(Action::Finish { version });
    assert_eq!(actions, expected);
}

#[test]
fn test_release_stops_on_hook_failure() {
    let mut manager = ReleaseManager::new("v", 3, false, Some(BumpType::Patch));
    assert_eq!(manager.stage(), Stage::Start);
    assert_eq!(manager.step(Event::Opened), Action::Discover);
    assert_eq!(
        manager.step(Event::Discovered { previous: Some(Version::new(1, 0, 0)) }),
        Action::Classify
    );
    assert_eq!(
        manager.step(Event::Classified { parsed: 0 }),
        Action::RunHook { point: HookPoint::PreBump, index: 0 }
    );
    assert_eq!(manager.next_version(), Version::new(1, 0, 1));
    assert_eq!(manager.bump_type(), BumpType::Patch);
    assert_eq!(manager.base_version(), Version::new(1, 0, 0));
    let context = manager.context("/repo", vec![]);
    assert_eq!(context.repo_path, "/repo");
    assert_eq!(context.previous_version, Version::new(1, 0, 0));
    assert_eq!(context.next_version, Version::new(1, 0, 1));
    assert_eq!(context.bump_type, BumpType::Patch);
    assert!(!context.dry_run);
    assert!(context.changelog.is_none());
    assert_eq!(
        manager.step(Event::HookFinished { outcome: Ok(()) }),
        Action::RunHook { point: HookPoint::PreBump, index: 1 }
    );
    let failure = PluginError::ExecutionFailed("lint failed".to_string());
    assert_eq!(
        manager.step(Event::HookFinished { outcome: Err(failure.clone()) }),
        Action::Abort { error: CoreError::Plugin(failure) }
    );
    assert_eq!(manager.stage(), Stage::Aborted);
    // Nothing moves a release that has come to its end.
    assert_eq!(manager.step(Event::FilesUpdated), Action::Stay);
    assert_eq!(manager.step(Event::Opened), Action::Stay);
    assert_eq!(manager.stage(), Stage::Aborted);
}

#[test]
fn test_release_ignores_events_out_of_turn() {
    let mut manager = ReleaseManager::new("v", 0, false, None);
    assert_eq!(manager.step(Event::Tagged), Action::Stay);
    assert_eq!(manager.step(Event::HookFinished { outcome: Ok(()) }), Action::Stay);
    assert_eq!(manager.stage(), Stage::Start);
    assert_eq!(manager.step(Event::Opened), Action::Discover);
    assert_eq!(manager.step(Event::Opened), Action::Stay);
    assert_eq!(
        manager.step(Event::Failed { error: CoreError::Git("no HEAD".to_string()) }),
        Action::Abort { error: CoreError::Git("no HEAD".to_string()) }
    );
    assert!(manager.is_finished());
}

#[test]
fn test_release_at_the_version_limit() {
    let mut manager = ReleaseManager::new("v", 0, false, Some(BumpType::Major));
    manager.step(Event::Opened);
    manager.step(Event::Discovered { previous: Some(Version::new(u64::MAX, 0, 0)) });
    let action = manager.step(Event::Classified { parsed: 1 });
    assert!(matches!(action, Action::Abort { error: CoreError::Version(_) }));
    assert_eq!(manager.stage(), Stage::Aborted);
}

#[test]
fn test_bump_strategy_of_the_pipeline() {
    let bumper = SemverBumper::new();
    let commits = pipeline().parse_commits(&[raw("docs: readme"), raw("chore!: drop old api")]);
    assert_eq!(bumper.determine(&commits), BumpType::Major);
}

#[test]
fn test_create_parser() {
    let mut config = Config::default();
    assert!(matches!(create_parser(&config), ConfiguredParser::Conventional(_)));
    config.parser.name = "conventional-gitmoji".to_string();
    assert!(matches!(create_parser(&config), ConfiguredParser::Gitmoji(_)));
    config.parser.name = "gitmoji".to_string();
    assert!(matches!(create_parser(&config), ConfiguredParser::Gitmoji(_)));
    config.parser.name = "regex".to_string();
    // Without a pattern, and with one that is no regular expression, the
    // conventional parser is used.
    assert!(matches!(create_parser(&config), ConfiguredParser::Conventional(_)));
    config.parser.regex.pattern = Some("(unclosed".to_string());
    assert!(matches!(create_parser(&config), ConfiguredParser::Conventional(_)));
    config.parser.regex.pattern =
        Some(r"^\[(?P<id>\w+)\] (?P<kind>\w+): (?P<text>.+)$".to_string());
    config.parser.regex.mapping = vec![
        ("type".to_string(), "kind".to_string()),
        ("message".to_string(), "text".to_string()),
        ("issue".to_string(), "id".to_string()),
    ];
    let parser = create_parser(&config);
    assert!(matches!(parser, ConfiguredParser::Regex(_)));
    let parsed = parser.parse(&raw("[A17] fix: handle empty input")).unwrap();
    assert_eq!(parsed.commit_type, "fix");
    assert_eq!(parsed.message, "handle empty input");
    assert_eq!(parsed.metadata, vec![("issue".to_string(), "A17".to_string())]);
    assert!(parsed.scope.is_none());
}

#[test]
fn test_regex_parser_config() {
    let mut config = Config::default();
    assert_eq!(regex_parser_config(&config), None);
    // The pattern is taken as it is: whether it is a regular expression is
    // found out when the parser is made.
    config.parser.regex.pattern = Some("(unclosed".to_string());
    assert_eq!(
        regex_parser_config(&config),
        Some(RegexParserConfig {
            pattern: "(unclosed".to_string(),
            mapping: FieldMapping {
                commit_type: "type".to_string(),
                scope: None,
                message: "message".to_string(),
                metadata: Vec::new(),
            },
            validation: Vec::new(),
        })
    );
    config.parser.regex.mapping = vec![
        ("ticket".to_string(), "id".to_string()),
        ("scope".to_string(), "area".to_string()),
        ("type".to_string(), "kind".to_string()),
        ("priority".to_string(), "prio".to_string()),
    ];
    config.parser.regex.validation =
        vec![("type".to_string(), vec!["feat".to_string(), "fix".to_string()])];
    assert_eq!(
        regex_parser_config(&config),
        Some(RegexParserConfig {
            pattern: "(unclosed".to_string(),
            mapping: FieldMapping {
                commit_type: "kind".to_string(),
                scope: Some("area".to_string()),
                message: "message".to_string(),
                metadata: vec![
                    ("ticket".to_string(), "id".to_string()),
                    ("priority".to_string(), "prio".to_string()),
                ],
            },
            validation: vec![("type".to_string(), vec!["feat".to_string(), "fix".to_string()])],
        })
    );
}
