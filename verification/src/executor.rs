//! The constrained action executor: what a hook may ask for, and what the
//! host agrees to do about it.
//!
//! Hooks have no ambient capabilities. Every side effect is a request that
//! the host checks first: a command must be on the allowlist, a file write
//! must stay inside the repository. This module makes those decisions and
//! keeps the record of what came of each request; carrying out an accepted
//! request (starting the process, writing the file) is left to the caller.

use crate::paths::{is_inside, join_path, joined, stays_inside};
use crate::text::{
    clone_texts, contains_literal, i64_to_string, join_literals, joined_with, lists, literal_texts,
    opt_text, signed_decimal,
};
use vstd::prelude::*;

verus! {

/// The commands that hooks may run.
pub open spec fn allowlist() -> Seq<Seq<char>> {
    seq!["cargo"@, "npm"@, "yarn"@, "pnpm"@, "gh"@, "git"@]
}

/// Returns the list of allowed commands for hooks.
pub fn allowed_commands() -> (r: Vec<&'static str>)
    ensures
        literal_texts(r@) == allowlist(),
{
    let mut list: Vec<&'static str> = Vec::new();
    list.push("cargo");
    list.push("npm");
    list.push("yarn");
    list.push("pnpm");
    list.push("gh");
    list.push("git");
    assert(literal_texts(list@) == allowlist());
    list
}

/// Whether hooks may run `command`: its name is on the allowlist, letter for
/// letter.
pub fn is_allowed(command: &str) -> (r: bool)
    ensures
        r == lists(allowlist(), command@),
{
    let list = allowed_commands();
    contains_literal(&list, command)
}

/// A request to run a command.
#[derive(Debug, Clone, PartialEq, Eq)]
pub struct CommandRequest {
    /// The executable to run.
    pub command: String,
    /// Its arguments.
    pub args: Vec<String>,
    /// The directory to run it in; the repository root where absent.
    pub workdir: Option<String>,
}

/// A request to write a file.
#[derive(Debug, Clone, PartialEq, Eq)]
pub struct FileWriteRequest {
    /// Where to write, relative to the repository root.
    pub path: String,
    /// What to write.
    pub content: Vec<u8>,
}

/// Severity of a log request.
#[derive(Debug, Clone, Copy, PartialEq, Eq, Structural)]
pub enum LogLevel {
    Trace,
    Debug,
    Info,
    Warn,
    Error,
}

/// A request to log a message.
#[derive(Debug, Clone, PartialEq, Eq)]
pub struct LogRequest {
    pub level: LogLevel,
    pub message: String,
}

/// One side effect that a hook asks for.
#[derive(Debug, Clone, PartialEq, Eq)]
pub enum HookAction {
    RunCommand(CommandRequest),
    WriteFile(FileWriteRequest),
    LogMessage(LogRequest),
}

/// What a hook returns for one lifecycle point.
#[derive(Debug, Clone, PartialEq, Eq)]
pub struct HookResult {
    /// Whether the hook succeeded; a failure stops the release.
    pub success: bool,
    /// What the hook has to say about it.
    pub message: Option<String>,
    /// The side effects that it asks for, in order.
    pub actions: Vec<HookAction>,
}

/// An accepted command, ready to be started.
#[derive(Debug, Clone, PartialEq, Eq)]
pub struct SpawnPlan {
    pub command: String,
    pub args: Vec<String>,
    /// The directory to start it in.
    pub cwd: String,
}

/// An accepted file write, ready to be carried out.
#[derive(Debug, Clone, PartialEq, Eq)]
pub struct WritePlan {
    /// The resolved target.
    pub path: String,
    pub content: Vec<u8>,
}

/// What the host does about one requested action.
#[derive(Debug, Clone, PartialEq, Eq)]
pub enum Step {
    /// Start the command.
    Spawn(SpawnPlan),
    /// Write the file.
    Write(WritePlan),
    /// Pass the line to the log at the given severity.
    Log(LogLevel, String),
    /// Do nothing but record the error.
    Refuse(String),
}

/// The error for a command that is not on the allowlist.
pub open spec fn not_allowed_message(command: Seq<char>) -> Seq<char> {
    "command '"@ + command + "' is not allowed. Allowed commands: "@ + joined_with(
        allowlist(),
        ", "@,
    )
}

/// The error for a write that would leave the repository.
pub open spec fn outside_message(path: Seq<char>) -> Seq<char> {
    "path '"@ + path + "' is outside the repository"@
}

/// The directory a command runs in: the requested one, taken from the
/// repository root where it is relative; the root itself where none is
/// requested.
pub open spec fn command_cwd(workdir: Seq<char>, requested: Option<Seq<char>>) -> Seq<char> {
    match requested {
        Some(dir) => joined(workdir, dir),
        None => workdir,
    }
}

/// The line that goes to the log for a message from a plugin.
pub open spec fn log_line(message: Seq<char>) -> Seq<char> {
    "[plugin] "@ + message
}

/// Decides on a command request. The command is accepted exactly when its
/// name is on the allowlist; a refused one gets the error that names the
/// list, and nothing is to be started for it.
pub fn plan_command(workdir: &str, req: &CommandRequest) -> (r: Result<SpawnPlan, String>)
    ensures
        r is Ok <==> lists(allowlist(), req.command@),
        r matches Ok(plan) ==> {
            &&& plan.command@ == req.command@
            &&& plan.args@ == req.args@
            &&& plan.cwd@ == command_cwd(workdir@, opt_text(req.workdir))
        },
        r matches Err(message) ==> message@ == not_allowed_message(req.command@),
{
    if !is_allowed(req.command.as_str()) {
        let list = allowed_commands();
        let mut message = String::from_str("command '");
        message.append(req.command.as_str());
        message.append("' is not allowed. Allowed commands: ");
        message.append(join_literals(&list, ", ").as_str());
        return Err(message);
    }
    let cwd = match &req.workdir {
        Some(dir) => join_path(workdir, dir.as_str()),
        None => String::from_str(workdir),
    };
    Ok(SpawnPlan { command: req.command.clone(), args: clone_texts(&req.args), cwd })
}

/// Resolves a path relative to the working directory, and refuses one that
/// would leave it.
pub fn resolve_path(workdir: &str, path: &str) -> (r: Result<String, String>)
    ensures
        r is Ok <==> stays_inside(workdir@, path@),
        r matches Ok(resolved) ==> resolved@ == joined(workdir@, path@),
        r matches Err(message) ==> message@ == outside_message(path@),
{
    if !is_inside(workdir, path) {
        let mut message = String::from_str("path '");
        message.append(path);
        message.append("' is outside the repository");
        return Err(message);
    }
    Ok(join_path(workdir, path))
}

/// A copy of a list of bytes.
pub(crate) fn clone_bytes(bytes: &Vec<u8>) -> (r: Vec<u8>)
    ensures
        r@ == bytes@,
{
    let mut out: Vec<u8> = Vec::new();
    let mut i: usize = 0;
    while i < bytes.len()
        invariant
            i <= bytes.len(),
            out@ == bytes@.take(i as int),
        decreases bytes.len() - i,
    {
        out.push(bytes[i]);
        i += 1;
    }
    assert(bytes@.take(bytes@.len() as int) == bytes@);
    out
}

/// Decides on a file-write request. The write is accepted exactly when its
/// target stays inside the repository.
pub fn plan_write(workdir: &str, req: &FileWriteRequest) -> (r: Result<WritePlan, String>)
    ensures
        r is Ok <==> stays_inside(workdir@, req.path@),
        r matches Ok(plan) ==> plan.path@ == joined(workdir@, req.path@) && plan.content@
            == req.content@,
        r matches Err(message) ==> message@ == outside_message(req.path@),
{
    match resolve_path(workdir, req.path.as_str()) {
        Ok(path) => Ok(WritePlan { path, content: clone_bytes(&req.content) }),
        Err(message) => Err(message),
    }
}

/// What the host does about `action`, as a specification.
pub open spec fn step_for(workdir: Seq<char>, action: HookAction, step: Step) -> bool {
    match action {
        HookAction::RunCommand(req) => if lists(allowlist(), req.command@) {
            &&& step matches Step::Spawn(plan)
            &&& plan.command@ == req.command@
            &&& plan.args@ == req.args@
            &&& plan.cwd@ == command_cwd(workdir, opt_text(req.workdir))
        } else {
            step matches Step::Refuse(m) && m@ == not_allowed_message(req.command@)
        },
        HookAction::WriteFile(req) => if stays_inside(workdir, req.path@) {
            &&& step matches Step::Write(plan)
            &&& plan.path@ == joined(workdir, req.path@)
            &&& plan.content@ == req.content@
        } else {
            step matches Step::Refuse(m) && m@ == outside_message(req.path@)
        },
        HookAction::LogMessage(req) => {
            step matches Step::Log(level, line) && level == req.level && line@ == log_line(
                req.message@,
            )
        },
    }
}

/// Decides what the host does about one requested action.
pub fn plan_action(workdir: &str, action: &HookAction) -> (r: Step)
    ensures
        step_for(workdir@, *action, r),
{
    match action {
        HookAction::RunCommand(req) => match plan_command(workdir, req) {
            Ok(plan) => Step::Spawn(plan),
            Err(message) => Step::Refuse(message),
        },
        HookAction::WriteFile(req) => match plan_write(workdir, req) {
            Ok(plan) => Step::Write(plan),
            Err(message) => Step::Refuse(message),
        },
        HookAction::LogMessage(req) => {
            let mut line = String::from_str("[plugin] ");
            line.append(req.message.as_str());
            Step::Log(req.level, line)
        },
    }
}

/// Store state for hook plugins.
pub struct HookState {
    /// Working directory for the hook (repository root).
    workdir: String,
}

impl HookState {
    /// The working directory.
    pub closed spec fn root(&self) -> Seq<char> {
        self.workdir@
    }

    /// Creates a new hook state.
    pub fn new(workdir: String) -> (r: HookState)
        ensures
            r.root() == workdir@,
    {
        HookState { workdir }
    }

    /// The working directory.
    pub fn workdir(&self) -> (r: &str)
        ensures
            r@ == self.root(),
    {
        self.workdir.as_str()
    }
}

/// Result of executing a command action.
#[derive(Debug, Clone, PartialEq, Eq)]
pub struct CommandOutput {
    /// Exit code (0 = success).
    pub exit_code: i32,
    /// Standard output.
    pub stdout: String,
    /// Standard error.
    pub stderr: String,
}

/// The exit code on record for a process: its own, or -1 where it ended
/// without one.
pub open spec fn recorded_code(code: Option<i32>) -> int {
    match code {
        Some(c) => c as int,
        None => -1,
    }
}

/// The warning for a command that ended with a code other than zero.
pub open spec fn exit_warning_text(command: Seq<char>, code: int, stderr: Seq<char>) -> Seq<
    char,
> {
    "Command '"@ + command + "' exited with code "@ + signed_decimal(code) + ": "@ + stderr
}

/// The error for a command that could not be started.
pub open spec fn launch_failure_text(command: Seq<char>, reason: Seq<char>) -> Seq<char> {
    "failed to execute command '"@ + command + "': "@ + reason
}

impl CommandOutput {
    /// The record of a finished process.
    pub fn from_status(code: Option<i32>, stdout: String, stderr: String) -> (r: CommandOutput)
        ensures
            r.exit_code as int == recorded_code(code),
            r.stdout@ == stdout@,
            r.stderr@ == stderr@,
    {
        let exit_code = match code {
            Some(c) => c,
            None => -1,
        };
        CommandOutput { exit_code, stdout, stderr }
    }

    /// The warning to log for this output: one for every exit code but zero.
    /// Such a code is worth a warning and no more; it does not stop anything.
    pub fn exit_warning(&self, command: &str) -> (r: Option<String>)
        ensures
            self.exit_code == 0 ==> r is None,
            self.exit_code != 0 ==> opt_text(r) == Some(
                exit_warning_text(command@, self.exit_code as int, self.stderr@),
            ),
    {
        if self.exit_code == 0 {
            return None;
        }
        let mut line = String::from_str("Command '");
        line.append(command);
        line.append("' exited with code ");
        line.append(i64_to_string(self.exit_code as i64).as_str());
        line.append(": ");
        line.append(self.stderr.as_str());
        Some(line)
    }
}

/// Result of processing hook actions.
#[derive(Debug)]
pub struct ActionResults {
    /// Command outputs in order of execution.
    pub command_outputs: Vec<CommandOutput>,
    /// Files written.
    pub files_written: Vec<String>,
    /// Any errors that occurred.
    pub errors: Vec<String>,
}

impl Default for ActionResults {
    fn default() -> (r: ActionResults)
        ensures
            r.command_outputs@.len() == 0,
            r.files_written@.len() == 0,
            r.errors@.len() == 0,
    {
        ActionResults::new()
    }
}

/// What the pipeline makes of a hook's result, as a specification: the
/// hook's own indicator decides, whatever became of its actions.
pub open spec fn outcome_of(result: HookResult, r: Result<(), crate::plugin::PluginError>) -> bool {
    if result.success {
        r is Ok
    } else {
        r is Err && (r->Err_0 matches crate::plugin::PluginError::ExecutionFailed(why) && why@
            == (match result.message {
            Some(text) => text@,
            None => "hook reported a failure"@,
        }))
    }
}

/// What the pipeline makes of a hook's result. A hook that reports success
/// lets the release go on, even where an action of it was refused or a
/// command of it ended with a code other than zero; a hook that reports
/// failure stops the release.
pub fn hook_outcome(result: &HookResult) -> (r: Result<(), crate::plugin::PluginError>)
    ensures
        outcome_of(*result, r),
{
    if result.success {
        Ok(())
    } else {
        let why = match &result.message {
            Some(text) => text.clone(),
            None => String::from_str("hook reported a failure"),
        };
        Err(crate::plugin::PluginError::ExecutionFailed(why))
    }
}

/// Every command on record ended with exit code zero.
pub open spec fn all_exited_cleanly(outputs: Seq<CommandOutput>) -> bool {
    forall|i: int| 0 <= i < outputs.len() ==> outputs[i].exit_code == 0
}

impl ActionResults {
    /// An empty record.
    pub fn new() -> (r: ActionResults)
        ensures
            r.command_outputs@.len() == 0,
            r.files_written@.len() == 0,
            r.errors@.len() == 0,
    {
        ActionResults {
            command_outputs: Vec::new(),
            files_written: Vec::new(),
            errors: Vec::new(),
        }
    }

    /// Returns true if all actions succeeded: no error is on record, and
    /// every command ended with exit code zero.
    pub fn success(&self) -> (r: bool)
        ensures
            r == (self.errors@.len() == 0 && all_exited_cleanly(self.command_outputs@)),
    {
        if self.errors.len() != 0 {
            return false;
        }
        let mut i: usize = 0;
        while i < self.command_outputs.len()
            invariant
                i <= self.command_outputs.len(),
                forall|j: int| 0 <= j < i ==> self.command_outputs@[j].exit_code == 0,
            decreases self.command_outputs.len() - i,
        {
            if self.command_outputs[i].exit_code != 0 {
                return false;
            }
            i += 1;
        }
        true
    }

    /// Records a request that the host refused.
    pub fn record_refusal(&mut self, message: String)
        ensures
            final(self).errors@ == old(self).errors@.push(message),
            final(self).command_outputs@ == old(self).command_outputs@,
            final(self).files_written@ == old(self).files_written@,
    {
        self.errors.push(message);
    }

    /// Records the output of a command that ran.
    pub fn record_output(&mut self, output: CommandOutput)
        ensures
            final(self).command_outputs@ == old(self).command_outputs@.push(output),
            final(self).errors@ == old(self).errors@,
            final(self).files_written@ == old(self).files_written@,
    {
        self.command_outputs.push(output);
    }

    /// Records a command that could not be started.
    pub fn record_launch_failure(&mut self, command: &str, reason: &str)
        ensures
            final(self).errors@.len() == old(self).errors@.len() + 1,
            final(self).errors@.drop_last() == old(self).errors@,
            final(self).errors@.last()@ == launch_failure_text(command@, reason@),
            final(self).command_outputs@ == old(self).command_outputs@,
            final(self).files_written@ == old(self).files_written@,
    {
        let mut message = String::from_str("failed to execute command '");
        message.append(command);
        message.append("': ");
        message.append(reason);
        self.errors.push(message);
        assert(self.errors@.drop_last() == old(self).errors@);
    }

    /// Records a file that was written.
    pub fn record_written(&mut self, path: String)
        ensures
            final(self).files_written@ == old(self).files_written@.push(path),
            final(self).errors@ == old(self).errors@,
            final(self).command_outputs@ == old(self).command_outputs@,
    {
        self.files_written.push(path);
    }

    /// Records a write that failed.
    pub fn record_write_failure(&mut self, message: String)
        ensures
            final(self).errors@ == old(self).errors@.push(message),
            final(self).command_outputs@ == old(self).command_outputs@,
            final(self).files_written@ == old(self).files_written@,
    {
        self.errors.push(message);
    }
}

/// A command is started exactly when it is on the allowlist: the step for a
/// command request is then a launch of that command, and otherwise a
/// refusal, whose message is the error entry that names the allowlist.
pub proof fn lemma_refused_command_is_not_run(workdir: Seq<char>, req: CommandRequest, step: Step)
    requires
        step_for(workdir, HookAction::RunCommand(req), step),
    ensures
        step is Spawn <==> lists(allowlist(), req.command@),
        step is Spawn ==> step->Spawn_0.command@ == req.command@,
        !lists(allowlist(), req.command@) ==> (step matches Step::Refuse(m) && m@
            == not_allowed_message(req.command@)),
        !(step is Write) && !(step is Log),
{
}

/// A write whose target leaves the repository is never carried out: the step
/// for it is a refusal with the error that names the path.
pub proof fn lemma_escaping_write_is_refused(
    workdir: Seq<char>,
    req: FileWriteRequest,
    step: Step,
)
    requires
        step_for(workdir, HookAction::WriteFile(req), step),
        !stays_inside(workdir, req.path@),
    ensures
        step matches Step::Refuse(m) && m@ == outside_message(req.path@),
{
}

} // verus!
