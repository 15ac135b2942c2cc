//! Release orchestration: the lifecycle of a release as a state machine.
//!
//! A release passes through fixed stages: discover the latest version and
//! the commits since it, classify the commits, decide the bump, compute the
//! next version, update the version files, render the changelog, commit,
//! tag. Hooks run at five points in between. The work of a stage (Git, the
//! filesystem, the plugins) is done by the caller; the machine says what is
//! to be done next, and takes what came of it as the next event.

use crate::bump::BumpType;
use crate::commit::{commit_views, ParsedCommit};
use crate::plugin::{PluginError, PluginResult, ReleaseContext, ReleaseContextView};
use crate::version::{
    base_of, can_bump, display, opt_version, release_after, tag_name, Version, VersionManager,
    VersionView,
};
use vstd::prelude::*;

verus! {

/// Core-related errors.
#[derive(Debug, Clone, PartialEq, Eq)]
pub enum CoreError {
    /// Git error.
    Git(String),
    /// Plugin error.
    Plugin(PluginError),
    /// Configuration error.
    Config(String),
    /// Version error.
    Version(String),
    /// No commits found for release.
    NoCommits,
    /// IO error.
    Io(String),
}

/// Result type for core operations.
pub type CoreResult<T> = Result<T, CoreError>;

impl CoreError {
    /// The message of the error.
    pub open spec fn message(self) -> Seq<char> {
        match self {
            CoreError::Git(what) => "git error: "@ + what@,
            CoreError::Plugin(e) => "plugin error: "@ + e.message(),
            CoreError::Config(what) => "config error: "@ + what@,
            CoreError::Version(what) => "version error: "@ + what@,
            CoreError::NoCommits => "no commits found since last release"@,
            CoreError::Io(what) => "IO error: "@ + what@,
        }
    }

    /// The message of the error.
    pub fn to_string(&self) -> (r: String)
        ensures
            r@ == self.message(),
    {
        match self {
            CoreError::Git(what) => {
                let mut out = String::from_str("git error: ");
                out.append(what.as_str());
                out
            },
            CoreError::Plugin(e) => {
                let mut out = String::from_str("plugin error: ");
                out.append(e.to_string().as_str());
                out
            },
            CoreError::Config(what) => {
                let mut out = String::from_str("config error: ");
                out.append(what.as_str());
                out
            },
            CoreError::Version(what) => {
                let mut out = String::from_str("version error: ");
                out.append(what.as_str());
                out
            },
            CoreError::NoCommits => String::from_str("no commits found since last release"),
            CoreError::Io(what) => {
                let mut out = String::from_str("IO error: ");
                out.append(what.as_str());
                out
            },
        }
    }
}

/// The stages of a release.
#[derive(Debug, Clone, Copy, PartialEq, Eq, Structural)]
pub enum Stage {
    /// Nothing was done yet.
    Start,
    /// The latest version tag and the commits since it are looked up.
    Discovering,
    /// The parser goes over the commits.
    Classifying,
    /// The bump kind is decided.
    Bumping,
    /// The hooks of `pre_bump` run.
    PreBump,
    /// The version files are updated.
    UpdatingFiles,
    /// The hooks of `post_bump` run.
    PostBump,
    /// The formatter renders the changelog.
    RenderingChangelog,
    /// The hooks of `pre_commit` run.
    PreCommit,
    /// The release commit is written.
    Committing,
    /// The hooks of `pre_tag` run.
    PreTag,
    /// The tag is created.
    Tagging,
    /// The hooks of `post_tag` run.
    PostTag,
    /// The release is complete.
    Done,
    /// The release was given up.
    Aborted,
}

/// The points at which hooks run.
#[derive(Debug, Clone, Copy, PartialEq, Eq, Structural)]
pub enum HookPoint {
    PreBump,
    PostBump,
    PreCommit,
    PreTag,
    PostTag,
}

/// What came of the work that the machine asked for.
#[derive(Debug, PartialEq, Eq)]
pub enum Event {
    /// The configuration was loaded and the repository opened.
    Opened,
    /// The tags and commits were enumerated; `previous` is the version of
    /// the latest version tag, if there is one.
    Discovered { previous: Option<Version> },
    /// The parser went over the commits and accepted `parsed` of them.
    Classified { parsed: usize },
    /// The bumper decided.
    BumpDetermined { bump: BumpType },
    /// The hook that was asked for ran, and its actions were executed.
    HookFinished { outcome: PluginResult<()> },
    /// The version files were seen to.
    FilesUpdated,
    /// The changelog was rendered.
    ChangelogRendered,
    /// The release commit was seen to.
    Committed,
    /// The tag was seen to.
    Tagged,
    /// The work failed.
    Failed { error: CoreError },
}

/// What the caller is to do next.
#[derive(Debug, Clone, PartialEq, Eq)]
pub enum Action {
    /// Enumerate the tags with the prefix, and the commits since the latest.
    Discover,
    /// Run the parser over the commits.
    Classify,
    /// Run the bumper over the parsed commits.
    DetermineBump,
    /// Run one hook at one point, and execute the actions it asks for.
    RunHook { point: HookPoint, index: usize },
    /// Update the declared version files; with `dry_run`, only show it.
    UpdateFiles { version: Version, dry_run: bool },
    /// Render the changelog entry of the release.
    RenderChangelog { version: Version, previous: Version },
    /// Write the release commit; with `dry_run`, only show it.
    Commit { message: String, dry_run: bool },
    /// Create the annotated tag; with `dry_run`, only show it.
    CreateTag { name: String, message: String, dry_run: bool },
    /// The release is complete.
    Finish { version: Version },
    /// The release is given up.
    Abort { error: CoreError },
    /// The event does not belong to the current stage; nothing changed.
    Stay,
}

/// The point at which the hooks of a stage run, for the stages that run
/// hooks.
pub open spec fn hook_point_of(stage: Stage) -> Option<HookPoint> {
    match stage {
        Stage::PreBump => Some(HookPoint::PreBump),
        Stage::PostBump => Some(HookPoint::PostBump),
        Stage::PreCommit => Some(HookPoint::PreCommit),
        Stage::PreTag => Some(HookPoint::PreTag),
        Stage::PostTag => Some(HookPoint::PostTag),
        _ => None,
    }
}

/// The stage in which the hooks of a point run.
pub open spec fn stage_of(point: HookPoint) -> Stage {
    match point {
        HookPoint::PreBump => Stage::PreBump,
        HookPoint::PostBump => Stage::PostBump,
        HookPoint::PreCommit => Stage::PreCommit,
        HookPoint::PreTag => Stage::PreTag,
        HookPoint::PostTag => Stage::PostTag,
    }
}

/// The stage that follows the hooks of a point.
pub open spec fn stage_after(point: HookPoint) -> Stage {
    match point {
        HookPoint::PreBump => Stage::UpdatingFiles,
        HookPoint::PostBump => Stage::RenderingChangelog,
        HookPoint::PreCommit => Stage::Committing,
        HookPoint::PreTag => Stage::Tagging,
        HookPoint::PostTag => Stage::Done,
    }
}

/// Whether a stage is final.
pub open spec fn is_terminal(stage: Stage) -> bool {
    stage == Stage::Done || stage == Stage::Aborted
}

/// The message of the release commit.
pub open spec fn commit_message_of(version: VersionView) -> Seq<char> {
    "chore(release): "@ + display(version)
}

/// The message of the release tag.
pub open spec fn tag_message_of(version: VersionView) -> Seq<char> {
    "Release "@ + display(version)
}

/// Manages the release process.
pub struct ReleaseManager {
    version_manager: VersionManager,
    tag_prefix: String,
    hook_count: usize,
    dry_run: bool,
    forced: Option<BumpType>,
    stage: Stage,
    cursor: usize,
    previous: Option<Version>,
    bump: BumpType,
    next: Version,
}

/// The mathematical content of a [`ReleaseManager`].
pub struct ReleaseState {
    pub tag_prefix: Seq<char>,
    pub hook_count: nat,
    pub dry_run: bool,
    pub forced: Option<BumpType>,
    pub stage: Stage,
    /// The number of hooks that ran at the current point.
    pub cursor: nat,
    pub previous: Option<VersionView>,
    pub bump: BumpType,
    pub next: VersionView,
}

impl View for ReleaseManager {
    type V = ReleaseState;

    closed spec fn view(&self) -> ReleaseState {
        ReleaseState {
            tag_prefix: self.tag_prefix@,
            hook_count: self.hook_count as nat,
            dry_run: self.dry_run,
            forced: self.forced,
            stage: self.stage,
            cursor: self.cursor as nat,
            previous: opt_version(self.previous),
            bump: self.bump,
            next: self.next@,
        }
    }
}

/// The action that begins the work after the hooks of `point`.
pub open spec fn work_after(s: ReleaseState, point: HookPoint, action: Action) -> bool {
    match point {
        HookPoint::PreBump => action matches Action::UpdateFiles { version, dry_run }
            && version@ == s.next && dry_run == s.dry_run,
        HookPoint::PostBump => action matches Action::RenderChangelog { version, previous }
            && version@ == s.next && previous@ == base_of(s.previous),
        HookPoint::PreCommit => action matches Action::Commit { message, dry_run } && message@
            == commit_message_of(s.next) && dry_run == s.dry_run,
        HookPoint::PreTag => action matches Action::CreateTag { name, message, dry_run }
            && name@ == s.tag_prefix + display(s.next) && message@ == tag_message_of(s.next)
            && dry_run == s.dry_run,
        HookPoint::PostTag => action matches Action::Finish { version } && version@ == s.next,
    }
}

/// The machine enters the hooks of `point`, coming from the state `s`: the
/// first hook is to run, or, where there is no hook, the work after the
/// hooks begins.
pub open spec fn enters_hooks(s: ReleaseState, point: HookPoint, t: ReleaseState, action: Action)
    -> bool {
    if s.hook_count == 0 {
        &&& t == (ReleaseState { stage: stage_after(point), cursor: 0, ..s })
        &&& work_after(s, point, action)
    } else {
        &&& t == (ReleaseState { stage: stage_of(point), cursor: 0, ..s })
        &&& action == (Action::RunHook { point, index: 0 })
    }
}

/// The bump kind that the machine goes by: `NoBump` counts as a patch.
pub open spec fn effective_bump(bump: BumpType) -> BumpType {
    if bump == BumpType::NoBump {
        BumpType::Patch
    } else {
        bump
    }
}

/// The next version can be computed: there is no earlier version, or the
/// component to raise can still go up.
pub open spec fn next_fits(previous: Option<VersionView>, bump: BumpType) -> bool {
    match previous {
        None => true,
        Some(v) => can_bump(v, effective_bump(bump)),
    }
}

/// The machine decides on `bump`, coming from the state `s`: the next
/// version is computed and the hooks of `pre_bump` are entered; where the
/// version cannot be computed, the release is given up.
pub open spec fn decides(s: ReleaseState, bump: BumpType, t: ReleaseState, action: Action)
    -> bool {
    if next_fits(s.previous, bump) {
        enters_hooks(
            ReleaseState { bump, next: release_after(s.previous, bump), ..s },
            HookPoint::PreBump,
            t,
            action,
        )
    } else {
        &&& t == (ReleaseState { stage: Stage::Aborted, ..s })
        &&& action matches Action::Abort { error }
        &&& error is Version
    }
}

/// Whether there are commits enough to release: a bump kind that the caller
/// insists on needs none; otherwise some commit must have been found since
/// the last release, and some commit must have been classified.
pub open spec fn commits_suffice(found: usize, parsed: usize, forced: Option<BumpType>) -> bool {
    forced is Some || (found > 0 && parsed > 0)
}

/// Checks that there are commits enough to release, given how many were
/// found since the last release, how many of them were classified, and the
/// bump kind that the caller insists on, if any. Fails with `NoCommits`
/// where there are not.
pub fn check_commits(found: usize, parsed: usize, forced: Option<BumpType>) -> (r: CoreResult<()>)
    ensures
        r is Ok <==> commits_suffice(found, parsed, forced),
        r is Err ==> r->Err_0 == CoreError::NoCommits,
{
    match forced {
        Some(_) => Ok(()),
        None => if found == 0 || parsed == 0 {
            Err(CoreError::NoCommits)
        } else {
            Ok(())
        },
    }
}

/// One step of the release: from the state `s` and the event `e` to the
/// state `t` and the action to take.
pub open spec fn transition(s: ReleaseState, e: Event, t: ReleaseState, action: Action) -> bool {
    if is_terminal(s.stage) {
        t == s && action == Action::Stay
    } else if e is Failed {
        t == (ReleaseState { stage: Stage::Aborted, ..s }) && action == (Action::Abort {
            error: e->error,
        })
    } else {
        match (s.stage, e) {
            (Stage::Start, Event::Opened) => t == (ReleaseState { stage: Stage::Discovering, ..s })
                && action == Action::Discover,
            (Stage::Discovering, Event::Discovered { previous }) => t == (ReleaseState {
                stage: Stage::Classifying,
                previous: opt_version(previous),
                ..s
            }) && action == Action::Classify,
            (Stage::Classifying, Event::Classified { parsed }) => match s.forced {
                Some(bump) => decides(s, bump, t, action),
                None => if parsed == 0 {
                    t == (ReleaseState { stage: Stage::Aborted, ..s }) && action == (Action::Abort {
                        error: CoreError::NoCommits,
                    })
                } else {
                    t == (ReleaseState { stage: Stage::Bumping, ..s }) && action
                        == Action::DetermineBump
                },
            },
            (Stage::Bumping, Event::BumpDetermined { bump }) => decides(s, bump, t, action),
            (Stage::UpdatingFiles, Event::FilesUpdated) => enters_hooks(
                s,
                HookPoint::PostBump,
                t,
                action,
            ),
            (Stage::RenderingChangelog, Event::ChangelogRendered) => enters_hooks(
                s,
                HookPoint::PreCommit,
                t,
                action,
            ),
            (Stage::Committing, Event::Committed) => enters_hooks(s, HookPoint::PreTag, t, action),
            (Stage::Tagging, Event::Tagged) => enters_hooks(s, HookPoint::PostTag, t, action),
            (stage, Event::HookFinished { outcome }) => match hook_point_of(stage) {
                None => t == s && action == Action::Stay,
                Some(point) => match outcome {
                    Err(error) => t == (ReleaseState { stage: Stage::Aborted, ..s }) && action == (
                    Action::Abort { error: CoreError::Plugin(error) }),
                    Ok(()) => if s.cursor + 1 < s.hook_count {
                        t == (ReleaseState { cursor: s.cursor + 1, ..s }) && action == (
                        Action::RunHook { point, index: (s.cursor + 1) as usize })
                    } else {
                        t == (ReleaseState { stage: stage_after(point), cursor: 0, ..s })
                            && work_after(s, point, action)
                    },
                },
            },
            _ => t == s && action == Action::Stay,
        }
    }
}

impl ReleaseManager {
    /// The machine keeps its cursor within the hooks.
    pub closed spec fn wf(&self) -> bool {
        self.cursor <= self.hook_count
    }

    /// Creates a new release manager, at the start of a release.
    ///
    /// `hook_count` is the number of hooks registered; they run in the order
    /// of registration at each point. `forced` is the bump kind that the
    /// caller insists on, if any.
    pub fn new(tag_prefix: &str, hook_count: usize, dry_run: bool, forced: Option<BumpType>) -> (r:
        ReleaseManager)
        ensures
            r.wf(),
            r@.stage == Stage::Start,
            r@.tag_prefix == tag_prefix@,
            r@.hook_count == hook_count,
            r@.dry_run == dry_run,
            r@.forced == forced,
            r@.cursor == 0,
            r@.previous is None,
    {
        ReleaseManager {
            version_manager: VersionManager::new(),
            tag_prefix: String::from_str(tag_prefix),
            hook_count,
            dry_run,
            forced,
            stage: Stage::Start,
            cursor: 0,
            previous: None,
            bump: BumpType::NoBump,
            next: Version::new(0, 0, 0),
        }
    }

    /// The stage that the release is in.
    pub fn stage(&self) -> (r: Stage)
        ensures
            r == self@.stage,
    {
        self.stage
    }

    /// Whether the release has come to its end, one way or the other.
    pub fn is_finished(&self) -> (r: bool)
        ensures
            r == is_terminal(self@.stage),
    {
        match self.stage {
            Stage::Done => true,
            Stage::Aborted => true,
            _ => false,
        }
    }

    /// The version that the release is compared with: the previous version,
    /// or `0.0.0` where there is none.
    pub fn base_version(&self) -> (r: Version)
        ensures
            r@ == base_of(self@.previous),
    {
        match &self.previous {
            Some(v) => v.duplicate(),
            None => Version::new(0, 0, 0),
        }
    }

    /// The version of the release, once the bump is decided.
    pub fn next_version(&self) -> (r: Version)
        ensures
            r@ == self@.next,
    {
        self.next.duplicate()
    }

    /// The bump kind of the release, once it is decided.
    pub fn bump_type(&self) -> (r: BumpType)
        ensures
            r == self@.bump,
    {
        self.bump
    }

    /// The context that the hooks of this release are given: the versions
    /// and the bump kind as the release has them, the commits, no changelog
    /// yet, and the dry-run flag of the release.
    pub fn context(&self, repo_path: &str, commits: Vec<ParsedCommit>) -> (r: ReleaseContext)
        ensures
            r@ == (ReleaseContextView {
                repo_path: repo_path@,
                previous_version: base_of(self@.previous),
                next_version: self@.next,
                bump_type: self@.bump,
                commits: commit_views(commits@),
                changelog: None,
                dry_run: self@.dry_run,
                metadata: Seq::empty(),
            }),
    {
        ReleaseContext::new(
            repo_path,
            self.base_version(),
            self.next_version(),
            self.bump,
            commits,
        ).dry_run(self.dry_run)
    }

    /// The action that begins the work after the hooks of `point`.
    fn begin_work(&self, point: HookPoint) -> (r: Action)
        ensures
            work_after(self@, point, r),
    {
        match point {
            HookPoint::PreBump => Action::UpdateFiles {
                version: self.next.duplicate(),
                dry_run: self.dry_run,
            },
            HookPoint::PostBump => Action::RenderChangelog {
                version: self.next.duplicate(),
                previous: self.base_version(),
            },
            HookPoint::PreCommit => {
                let mut message = String::from_str("chore(release): ");
                message.append(self.next.to_string().as_str());
                Action::Commit { message, dry_run: self.dry_run }
            },
            HookPoint::PreTag => {
                let mut message = String::from_str("Release ");
                message.append(self.next.to_string().as_str());
                Action::CreateTag {
                    name: tag_name(self.tag_prefix.as_str(), &self.next),
                    message,
                    dry_run: self.dry_run,
                }
            },
            HookPoint::PostTag => Action::Finish { version: self.next.duplicate() },
        }
    }

    /// Enters the hooks of `point`.
    fn enter_hooks(&mut self, point: HookPoint) -> (r: Action)
        ensures
            final(self).wf(),
            enters_hooks(old(self)@, point, final(self)@, r),
    {
        self.cursor = 0;
        if self.hook_count == 0 {
            self.stage = match point {
                HookPoint::PreBump => Stage::UpdatingFiles,
                HookPoint::PostBump => Stage::RenderingChangelog,
                HookPoint::PreCommit => Stage::Committing,
                HookPoint::PreTag => Stage::Tagging,
                HookPoint::PostTag => Stage::Done,
            };
            self.begin_work(point)
        } else {
            self.stage = match point {
                HookPoint::PreBump => Stage::PreBump,
                HookPoint::PostBump => Stage::PostBump,
                HookPoint::PreCommit => Stage::PreCommit,
                HookPoint::PreTag => Stage::PreTag,
                HookPoint::PostTag => Stage::PostTag,
            };
            Action::RunHook { point, index: 0 }
        }
    }

    /// Decides on the bump kind.
    fn decide(&mut self, bump: BumpType) -> (r: Action)
        requires
            old(self).wf(),
        ensures
            final(self).wf(),
            decides(old(self)@, bump, final(self)@, r),
    {
        let next = match &self.previous {
            None => self.version_manager.checked_next_release(None, bump),
            Some(v) => self.version_manager.checked_next_release(Some(v), bump),
        };
        match next {
            Some(version) => {
                self.bump = bump;
                self.next = version;
                self.enter_hooks(HookPoint::PreBump)
            },
            None => {
                self.stage = Stage::Aborted;
                Action::Abort {
                    error: CoreError::Version(
                        String::from_str("version component is too large to bump"),
                    ),
                }
            },
        }
    }

    /// Takes one step: given what came of the work asked for last, says
    /// what is to be done next.
    pub fn step(&mut self, event: Event) -> (r: Action)
        requires
            old(self).wf(),
        ensures
            final(self).wf(),
            transition(old(self)@, event, final(self)@, r),
    {
        if self.is_finished() {
            return Action::Stay;
        }
        match event {
            Event::Failed { error } => {
                self.stage = Stage::Aborted;
                Action::Abort { error }
            },
            Event::Opened => match self.stage {
                Stage::Start => {
                    self.stage = Stage::Discovering;
                    Action::Discover
                },
                _ => Action::Stay,
            },
            Event::Discovered { previous } => match self.stage {
                Stage::Discovering => {
                    self.stage = Stage::Classifying;
                    self.previous = previous;
                    Action::Classify
                },
                _ => Action::Stay,
            },
            Event::Classified { parsed } => match self.stage {
                Stage::Classifying => match check_commits(parsed, parsed, self.forced) {
                    Err(error) => {
                        self.stage = Stage::Aborted;
                        Action::Abort { error }
                    },
                    Ok(()) => match self.forced {
                        Some(bump) => self.decide(bump),
                        None => {
                            self.stage = Stage::Bumping;
                            Action::DetermineBump
                        },
                    },
                },
                _ => Action::Stay,
            },
            Event::BumpDetermined { bump } => match self.stage {
                Stage::Bumping => self.decide(bump),
                _ => Action::Stay,
            },
            Event::FilesUpdated => match self.stage {
                Stage::UpdatingFiles => self.enter_hooks(HookPoint::PostBump),
                _ => Action::Stay,
            },
            Event::ChangelogRendered => match self.stage {
                Stage::RenderingChangelog => self.enter_hooks(HookPoint::PreCommit),
                _ => Action::Stay,
            },
            Event::Committed => match self.stage {
                Stage::Committing => self.enter_hooks(HookPoint::PreTag),
                _ => Action::Stay,
            },
            Event::Tagged => match self.stage {
                Stage::Tagging => self.enter_hooks(HookPoint::PostTag),
                _ => Action::Stay,
            },
            Event::HookFinished { outcome } => {
                let point = match self.stage {
                    Stage::PreBump => HookPoint::PreBump,
                    Stage::PostBump => HookPoint::PostBump,
                    Stage::PreCommit => HookPoint::PreCommit,
                    Stage::PreTag => HookPoint::PreTag,
                    Stage::PostTag => HookPoint::PostTag,
                    _ => {
                        return Action::Stay;
                    },
                };
                match outcome {
                    Err(error) => {
                        self.stage = Stage::Aborted;
                        Action::Abort { error: CoreError::Plugin(error) }
                    },
                    Ok(()) => if self.cursor < self.hook_count && self.cursor + 1
                        < self.hook_count {
                        self.cursor = self.cursor + 1;
                        Action::RunHook { point, index: self.cursor }
                    } else {
                        self.cursor = 0;
                        self.stage = match point {
                            HookPoint::PreBump => Stage::UpdatingFiles,
                            HookPoint::PostBump => Stage::RenderingChangelog,
                            HookPoint::PreCommit => Stage::Committing,
                            HookPoint::PreTag => Stage::Tagging,
                            HookPoint::PostTag => Stage::Done,
                        };
                        self.begin_work(point)
                    },
                }
            },
        }
    }
}

/// A release that has come to its end stays where it is, whatever happens.
pub proof fn lemma_terminal_stages_are_final(
    s: ReleaseState,
    e: Event,
    t: ReleaseState,
    action: Action,
)
    requires
        is_terminal(s.stage),
        transition(s, e, t, action),
    ensures
        t == s,
        action == Action::Stay,
{
}

/// The hooks of a point run one after the other, in the order of their
/// registration, and the release moves on only when the last of them has
/// run: after a hook that succeeded, the next hook of the same point is
/// asked for if there is one, and the stage changes only if there is none.
pub proof fn lemma_hooks_run_in_order(
    s: ReleaseState,
    outcome: PluginResult<()>,
    t: ReleaseState,
    action: Action,
)
    requires
        hook_point_of(s.stage) is Some,
        outcome is Ok,
        transition(s, Event::HookFinished { outcome }, t, action),
    ensures
        s.cursor + 1 < s.hook_count ==> t.stage == s.stage && t.cursor == s.cursor + 1 && action
            == (Action::RunHook {
            point: hook_point_of(s.stage)->0,
            index: (s.cursor + 1) as usize,
        }),
        s.cursor + 1 >= s.hook_count ==> t.stage == stage_after(hook_point_of(s.stage)->0)
            && !(action is RunHook),
{
}

/// A hook that fails stops the release at once, with the hook's error.
pub proof fn lemma_hook_failure_aborts(
    s: ReleaseState,
    error: PluginError,
    t: ReleaseState,
    action: Action,
)
    requires
        hook_point_of(s.stage) is Some,
        transition(s, Event::HookFinished { outcome: Err(error) }, t, action),
    ensures
        t.stage == Stage::Aborted,
        action == (Action::Abort { error: CoreError::Plugin(error) }),
{
}

/// Without a forced bump kind, a release with no parsed commit is given up
/// with `NoCommits`; with one, the commits do not matter. The release is
/// given up so exactly when the commits do not suffice.
pub proof fn lemma_no_commits(s: ReleaseState, parsed: usize, t: ReleaseState, action: Action)
    requires
        s.stage == Stage::Classifying,
        transition(s, Event::Classified { parsed }, t, action),
    ensures
        s.forced is None && parsed == 0 ==> t.stage == Stage::Aborted && action == (Action::Abort {
            error: CoreError::NoCommits,
        }),
        s.forced is None && parsed > 0 ==> action == Action::DetermineBump,
        s.forced is Some ==> action != (Action::Abort { error: CoreError::NoCommits }),
        action == (Action::Abort { error: CoreError::NoCommits }) <==> !commits_suffice(
            parsed,
            parsed,
            s.forced,
        ),
{
}

/// Every action that changes the repository carries the dry-run flag of the
/// release, so that a dry run shows the change and does not make it.
pub proof fn lemma_dry_run_is_passed_on(s: ReleaseState, e: Event, t: ReleaseState, action: Action)
    requires
        transition(s, e, t, action),
    ensures
        action matches Action::UpdateFiles { version, dry_run } ==> dry_run == s.dry_run,
        action matches Action::Commit { message, dry_run } ==> dry_run == s.dry_run,
        action matches Action::CreateTag { name, message, dry_run } ==> dry_run == s.dry_run,
{
}

/// The state in which the hooks of `point` are entered, coming from `s`.
pub open spec fn entered(s: ReleaseState, point: HookPoint) -> ReleaseState {
    if s.hook_count == 0 {
        ReleaseState { stage: stage_after(point), cursor: 0, ..s }
    } else {
        ReleaseState { stage: stage_of(point), cursor: 0, ..s }
    }
}

/// The state after the bump kind is decided, coming from `s`.
pub open spec fn decided(s: ReleaseState, bump: BumpType) -> ReleaseState {
    if next_fits(s.previous, bump) {
        entered(
            ReleaseState { bump, next: release_after(s.previous, bump), ..s },
            HookPoint::PreBump,
        )
    } else {
        ReleaseState { stage: Stage::Aborted, ..s }
    }
}

/// The state that follows `s` on the event `e`.
pub open spec fn next_state(s: ReleaseState, e: Event) -> ReleaseState {
    if is_terminal(s.stage) {
        s
    } else if e is Failed {
        ReleaseState { stage: Stage::Aborted, ..s }
    } else {
        match (s.stage, e) {
            (Stage::Start, Event::Opened) => ReleaseState { stage: Stage::Discovering, ..s },
            (Stage::Discovering, Event::Discovered { previous }) => ReleaseState {
                stage: Stage::Classifying,
                previous: opt_version(previous),
                ..s
            },
            (Stage::Classifying, Event::Classified { parsed }) => match s.forced {
                Some(bump) => decided(s, bump),
                None => if parsed == 0 {
                    ReleaseState { stage: Stage::Aborted, ..s }
                } else {
                    ReleaseState { stage: Stage::Bumping, ..s }
                },
            },
            (Stage::Bumping, Event::BumpDetermined { bump }) => decided(s, bump),
            (Stage::UpdatingFiles, Event::FilesUpdated) => entered(s, HookPoint::PostBump),
            (Stage::RenderingChangelog, Event::ChangelogRendered) => entered(
                s,
                HookPoint::PreCommit,
            ),
            (Stage::Committing, Event::Committed) => entered(s, HookPoint::PreTag),
            (Stage::Tagging, Event::Tagged) => entered(s, HookPoint::PostTag),
            (stage, Event::HookFinished { outcome }) => match hook_point_of(stage) {
                None => s,
                Some(point) => match outcome {
                    Err(_) => ReleaseState { stage: Stage::Aborted, ..s },
                    Ok(()) => if s.cursor + 1 < s.hook_count {
                        ReleaseState { cursor: s.cursor + 1, ..s }
                    } else {
                        ReleaseState { stage: stage_after(point), cursor: 0, ..s }
                    },
                },
            },
            _ => s,
        }
    }
}

/// A step leads to one state only: the state that `next_state` gives.
pub proof fn lemma_step_is_determined(s: ReleaseState, e: Event, t: ReleaseState, action: Action)
    requires
        transition(s, e, t, action),
    ensures
        t == next_state(s, e),
{
}

/// The state after `k` hooks in a row succeeded, coming from `s`.
pub open spec fn after_hooks(s: ReleaseState, k: nat) -> ReleaseState
    decreases k,
{
    if k == 0 {
        s
    } else {
        after_hooks(next_state(s, Event::HookFinished { outcome: Ok(()) }), (k - 1) as nat)
    }
}

/// When the hooks that are left at a point all succeed, the release is at
/// the stage that follows the point.
pub proof fn lemma_hooks_lead_on(s: ReleaseState, point: HookPoint, k: nat)
    requires
        s.stage == stage_of(point),
        k >= 1,
        s.cursor + k == s.hook_count,
    ensures
        after_hooks(s, k) == (ReleaseState { stage: stage_after(point), cursor: 0, ..s }),
    decreases k,
{
    assert(hook_point_of(s.stage) == Some(point));
    let t = next_state(s, Event::HookFinished { outcome: Ok(()) });
    if k > 1 {
        assert(t == (ReleaseState { cursor: s.cursor + 1, ..s }));
        lemma_hooks_lead_on(t, point, (k - 1) as nat);
    } else {
        assert(t == (ReleaseState { stage: stage_after(point), cursor: 0, ..s }));
        assert(after_hooks(t, 0) == t);
    }
}

/// When every hook of a point succeeds, the release is at the stage that
/// follows the point, whether there are hooks or not.
pub proof fn lemma_point_is_passed(s: ReleaseState, point: HookPoint)
    ensures
        after_hooks(entered(s, point), s.hook_count) == (ReleaseState {
            stage: stage_after(point),
            cursor: 0,
            ..s
        }),
{
    if s.hook_count > 0 {
        lemma_hooks_lead_on(entered(s, point), point, s.hook_count);
    }
}

/// The state of a release in which everything succeeds: the repository is
/// opened, `previous` is found as the latest version, `parsed` commits are
/// classified, the bumper decides on `bump` where no bump kind is forced,
/// and every hook and every piece of work goes through.
pub open spec fn completed(
    start: ReleaseState,
    previous: Option<Version>,
    parsed: usize,
    bump: BumpType,
) -> ReleaseState {
    let hooks = start.hook_count;
    let discovering = next_state(start, Event::Opened);
    let classifying = next_state(discovering, Event::Discovered { previous });
    let bumping = next_state(classifying, Event::Classified { parsed });
    let pre_bump = if start.forced is None {
        next_state(bumping, Event::BumpDetermined { bump })
    } else {
        bumping
    };
    let updating = after_hooks(pre_bump, hooks);
    let post_bump = next_state(updating, Event::FilesUpdated);
    let rendering = after_hooks(post_bump, hooks);
    let pre_commit = next_state(rendering, Event::ChangelogRendered);
    let committing = after_hooks(pre_commit, hooks);
    let pre_tag = next_state(committing, Event::Committed);
    let tagging = after_hooks(pre_tag, hooks);
    let post_tag = next_state(tagging, Event::Tagged);
    after_hooks(post_tag, hooks)
}

/// A release in which everything succeeds comes to its end at `Done`,
/// having passed every stage in order, and its version is the one that the
/// bump kind gives after the previous version: the forced bump kind where
/// there is one, the bumper's otherwise.
pub proof fn lemma_release_completes(
    start: ReleaseState,
    previous: Option<Version>,
    parsed: usize,
    bump: BumpType,
)
    requires
        start.stage == Stage::Start,
        start.forced is None ==> parsed > 0,
        next_fits(
            opt_version(previous),
            match start.forced {
                Some(forced) => forced,
                None => bump,
            },
        ),
    ensures
        completed(start, previous, parsed, bump).stage == Stage::Done,
        completed(start, previous, parsed, bump).next == release_after(
            opt_version(previous),
            match start.forced {
                Some(forced) => forced,
                None => bump,
            },
        ),
        completed(start, previous, parsed, bump).bump == (match start.forced {
            Some(forced) => forced,
            None => bump,
        }),
        completed(start, previous, parsed, bump).previous == opt_version(previous),
{
    let kind = match start.forced {
        Some(forced) => forced,
        None => bump,
    };
    let hooks = start.hook_count;
    let discovering = next_state(start, Event::Opened);
    let classifying = next_state(discovering, Event::Discovered { previous });
    let bumping = next_state(classifying, Event::Classified { parsed });
    let pre_bump = if start.forced is None {
        next_state(bumping, Event::BumpDetermined { bump })
    } else {
        bumping
    };
    let chosen = ReleaseState {
        bump: kind,
        next: release_after(opt_version(previous), kind),
        ..classifying
    };
    assert(pre_bump == entered(chosen, HookPoint::PreBump));
    lemma_point_is_passed(chosen, HookPoint::PreBump);
    let updating = after_hooks(pre_bump, hooks);
    assert(updating == (ReleaseState { stage: Stage::UpdatingFiles, cursor: 0, ..chosen }));
    let post_bump = next_state(updating, Event::FilesUpdated);
    lemma_point_is_passed(updating, HookPoint::PostBump);
    let rendering = after_hooks(post_bump, hooks);
    assert(rendering == (ReleaseState { stage: Stage::RenderingChangelog, cursor: 0, ..chosen }));
    let pre_commit = next_state(rendering, Event::ChangelogRendered);
    lemma_point_is_passed(rendering, HookPoint::PreCommit);
    let committing = after_hooks(pre_commit, hooks);
    assert(committing == (ReleaseState { stage: Stage::Committing, cursor: 0, ..chosen }));
    let pre_tag = next_state(committing, Event::Committed);
    lemma_point_is_passed(committing, HookPoint::PreTag);
    let tagging = after_hooks(pre_tag, hooks);
    assert(tagging == (ReleaseState { stage: Stage::Tagging, cursor: 0, ..chosen }));
    let post_tag = next_state(tagging, Event::Tagged);
    lemma_point_is_passed(tagging, HookPoint::PostTag);
}

/// The first release of a repository is `0.1.0`: where no earlier version
/// is found and everything succeeds, the release comes to its end with that
/// version, whatever the commits are and whatever bump kind is decided or
/// insisted on.
pub proof fn lemma_first_release_completes(start: ReleaseState, parsed: usize, bump: BumpType)
    requires
        start.stage == Stage::Start,
        start.forced is None ==> parsed > 0,
    ensures
        completed(start, None, parsed, bump).stage == Stage::Done,
        completed(start, None, parsed, bump).next == crate::version::release(0, 1, 0),
        completed(start, None, parsed, bump).previous is None,
{
    lemma_release_completes(start, None, parsed, bump);
}

} // verus!
