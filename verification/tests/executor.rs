use unduler::executor::{
    hook_outcome, is_allowed, plan_action, plan_command, plan_write, resolve_path, Step,
};
use unduler::paths::{is_inside, join_path, split_path, Segment};
use unduler::{
    allowed_commands, HookResult, PluginError, normalize_path, ActionResults, CommandOutput, CommandRequest,
    FileWriteRequest, HookAction, HookState, LogLevel, LogRequest,
};

#[test]
fn test_allowed_commands() {
    let commands = allowed_commands();
    assert!(commands.contains(&"cargo"));
    assert!(commands.contains(&"npm"));
    assert!(commands.contains(&"yarn"));
    assert!(commands.contains(&"pnpm"));
    assert!(commands.contains(&"gh"));
    assert!(commands.contains(&"git"));
    assert!(!commands.contains(&"rm"));
    assert!(!commands.contains(&"sudo"));
}

#[test]
fn test_normalize_path() {
    assert_eq!(normalize_path("/foo/bar/../baz"), "/foo/baz");
    assert_eq!(normalize_path("/foo/./bar"), "/foo/bar");
    assert_eq!(normalize_path("/foo/bar/../../baz"), "/baz");
}

#[test]
fn test_normalize_path_edges() {
    assert_eq!(normalize_path(""), "");
    assert_eq!(normalize_path("/"), "/");
    assert_eq!(normalize_path("a//b///c/"), "a/b/c");
    assert_eq!(normalize_path("./a/./b/."), "a/b");
    assert_eq!(normalize_path("a/../.."), "");
    assert_eq!(normalize_path("../a"), "a");
    // `..` takes whatever was gathered last, the root too.
    assert_eq!(normalize_path("/.."), "");
    assert_eq!(normalize_path("/../a"), "a");
    assert_eq!(normalize_path("/a/..b/...c"), "/a/..b/...c");
}

#[test]
fn test_split_and_join() {
    assert_eq!(
        split_path("/a/./../b"),
        vec![
            Segment::Root,
            Segment::Name("a".to_string()),
            Segment::Current,
            Segment::Parent,
            Segment::Name("b".to_string()),
        ]
    );
    assert_eq!(join_path("/repo", "src/lib.rs"), "/repo/src/lib.rs");
    assert_eq!(join_path("/repo/", "src"), "/repo/src");
    assert_eq!(join_path("/repo", "/etc/passwd"), "/etc/passwd");
    assert_eq!(join_path("", "src"), "src");
    assert_eq!(join_path("/repo", ""), "/repo/");
}

#[test]
fn test_path_containment() {
    assert!(is_inside("/repo", "src/main.rs"));
    assert!(is_inside("/repo", "a/../b"));
    assert!(is_inside("/repo", "."));
    assert!(is_inside("/repo", "/repo/nested/file"));
    assert!(is_inside("/repo/./x/..", "file"));
    assert!(!is_inside("/repo", "../../etc/passwd"));
    assert!(!is_inside("/repo", ".."));
    assert!(!is_inside("/repo", "a/../../b"));
    assert!(!is_inside("/repo", "/etc/passwd"));
    assert!(!is_inside("/repo", "/repository/file"));
    // Containment goes by whole components.
    assert!(!is_inside("/repo", "../repo-other/file"));
    assert!(is_inside("/repo", "../repo/file"));
}

#[test]
fn test_resolve_path() {
    assert_eq!(
        resolve_path("/repo", "docs/CHANGELOG.md"),
        Ok("/repo/docs/CHANGELOG.md".to_string())
    );
    // The resolved path is returned as it was joined, not normalised.
    assert_eq!(
        resolve_path("/repo", "a/../b.txt"),
        Ok("/repo/a/../b.txt".to_string())
    );
    assert_eq!(
        resolve_path("/repo", "../../etc/passwd"),
        Err("path '../../etc/passwd' is outside the repository".to_string())
    );
}

fn command(name: &str, workdir: Option<&str>) -> CommandRequest {
    CommandRequest {
        command: name.to_string(),
        args: vec!["publish".to_string(), "--dry-run".to_string()],
        workdir: workdir.map(str::to_string),
    }
}

#[test]
fn test_plan_command() {
    for name in ["cargo", "npm", "yarn", "pnpm", "gh", "git"] {
        assert!(is_allowed(name));
        let plan = plan_command("/repo", &command(name, None)).unwrap();
        assert_eq!(plan.command, name);
        assert_eq!(plan.args, vec!["publish".to_string(), "--dry-run".to_string()]);
        assert_eq!(plan.cwd, "/repo");
    }
    for name in ["rm", "sudo", "Cargo", "cargo ", " git", "", "git\n", "/usr/bin/git"] {
        assert!(!is_allowed(name));
        assert_eq!(
            plan_command("/repo", &command(name, None)),
            Err(format!(
                "command '{name}' is not allowed. Allowed commands: cargo, npm, yarn, pnpm, gh, git"
            ))
        );
    }
}

#[test]
fn test_plan_command_working_directory() {
    let plan = plan_command("/repo", &command("npm", Some("packages/web"))).unwrap();
    assert_eq!(plan.cwd, "/repo/packages/web");
    let plan = plan_command("/repo", &command("npm", Some("/srv/other"))).unwrap();
    assert_eq!(plan.cwd, "/srv/other");
}

#[test]
fn test_plan_write() {
    let request = FileWriteRequest { path: "dist/notes.md".to_string(), content: b"hi".to_vec() };
    let plan = plan_write("/repo", &request).unwrap();
    assert_eq!(plan.path, "/repo/dist/notes.md");
    assert_eq!(plan.content, b"hi".to_vec());
    let request = FileWriteRequest { path: "../outside".to_string(), content: vec![] };
    assert_eq!(
        plan_write("/repo", &request),
        Err("path '../outside' is outside the repository".to_string())
    );
}

#[test]
fn test_plan_action() {
    let step = plan_action("/repo", &HookAction::RunCommand(command("gh", None)));
    assert!(matches!(step, Step::Spawn(ref plan) if plan.command == "gh"));
    let step = plan_action("/repo", &HookAction::RunCommand(command("curl", None)));
    assert!(matches!(step, Step::Refuse(ref m) if m.starts_with("command 'curl' is not allowed")));
    let step = plan_action(
        "/repo",
        &HookAction::WriteFile(FileWriteRequest { path: "x".to_string(), content: vec![1] }),
    );
    assert!(matches!(step, Step::Write(ref plan) if plan.path == "/repo/x"));
    let step = plan_action(
        "/repo",
        &HookAction::LogMessage(LogRequest { level: LogLevel::Warn, message: "careful".to_string() }),
    );
    assert_eq!(step, Step::Log(LogLevel::Warn, "[plugin] careful".to_string()));
}

#[test]
fn test_action_results_success() {
    let mut results = ActionResults::new();
    assert!(results.success());
    results.record_output(CommandOutput::from_status(Some(0), "ok".to_string(), String::new()));
    results.record_written("/repo/x".to_string());
    assert!(results.success());
    assert_eq!(results.files_written, vec!["/repo/x".to_string()]);

    // A command that ended with another code makes the whole a failure.
    results.record_output(CommandOutput::from_status(Some(3), String::new(), "bad".to_string()));
    assert!(!results.success());
    assert!(results.errors.is_empty());
    assert_eq!(results.command_outputs.len(), 2);

    let mut results = ActionResults::default();
    results.record_refusal("command 'rm' is not allowed".to_string());
    assert!(!results.success());
    assert!(results.command_outputs.is_empty());

    let mut results = ActionResults::new();
    results.record_launch_failure("gh", "No such file or directory");
    assert_eq!(
        results.errors,
        vec!["failed to execute command 'gh': No such file or directory".to_string()]
    );
    results.record_write_failure("failed to create directory: denied".to_string());
    assert_eq!(results.errors.len(), 2);
}

#[test]
fn test_command_output() {
    let output = CommandOutput::from_status(None, String::new(), "killed".to_string());
    assert_eq!(output.exit_code, -1);
    assert_eq!(
        output.exit_warning("npm"),
        Some("Command 'npm' exited with code -1: killed".to_string())
    );
    let output = CommandOutput::from_status(Some(101), String::new(), "boom".to_string());
    assert_eq!(
        output.exit_warning("cargo"),
        Some("Command 'cargo' exited with code 101: boom".to_string())
    );
    let output = CommandOutput::from_status(Some(i32::MIN), String::new(), String::new());
    assert_eq!(
        output.exit_warning("git"),
        Some("Command 'git' exited with code -2147483648: ".to_string())
    );
    let output = CommandOutput::from_status(Some(0), "fine".to_string(), "noise".to_string());
    assert_eq!(output.exit_warning("git"), None);
}

#[test]
fn test_hook_state() {
    let state = HookState::new("/repo".to_string());
    assert_eq!(state.workdir(), "/repo");
}

#[test]
fn test_hook_outcome() {
    let ok = HookResult { success: true, message: Some("fine".to_string()), actions: vec![] };
    assert_eq!(hook_outcome(&ok), Ok(()));
    let failed = HookResult { success: false, message: Some("lint".to_string()), actions: vec![] };
    assert_eq!(
        hook_outcome(&failed),
        Err(PluginError::ExecutionFailed("lint".to_string()))
    );
    let silent = HookResult { success: false, message: None, actions: vec![] };
    assert_eq!(
        hook_outcome(&silent),
        Err(PluginError::ExecutionFailed("hook reported a failure".to_string()))
    );
}
