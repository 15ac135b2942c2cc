//! The plugin interfaces: what every plugin has in common, the four kinds
//! of plugin, and the records that pass between them and the pipeline.

use crate::bump::BumpType;
use crate::commit::{
    commit_views, get_entry, lookup, set_entry, with_entry, ParsedCommit, ParsedCommitView,
    RawCommit, RawCommitView,
};
use crate::text::{opt_text, pair_texts};
use crate::version::{display, Version, VersionView};
use vstd::prelude::*;

verus! {

/// The version that the bundled plugins report.
pub const PACKAGE_VERSION: &'static str = "0.1.0";

/// Base trait for all plugins.
pub trait Plugin {
    /// Returns the plugin name.
    fn name(&self) -> &'static str;

    /// Returns the plugin version.
    fn version(&self) -> &'static str;

    /// Returns a short description of the plugin: none, unless the plugin
    /// gives one.
    fn description(&self) -> (r: &'static str)
        default_ensures
            r@ == ""@,
    {
        ""
    }
}

/// Plugin-related errors.
#[derive(Debug, Clone, PartialEq, Eq)]
pub enum PluginError {
    /// Plugin not found.
    NotFound(String),
    /// Plugin initialization failed.
    InitFailed(String),
    /// Plugin execution failed.
    ExecutionFailed(String),
    /// Configuration error.
    ConfigError(String),
    /// IO error.
    Io(String),
}

/// Result type for plugin operations.
pub type PluginResult<T> = Result<T, PluginError>;

impl PluginError {
    /// The message of the error.
    pub open spec fn message(self) -> Seq<char> {
        match self {
            PluginError::NotFound(what) => "plugin not found: "@ + what@,
            PluginError::InitFailed(what) => "plugin initialization failed: "@ + what@,
            PluginError::ExecutionFailed(what) => "plugin execution failed: "@ + what@,
            PluginError::ConfigError(what) => "plugin configuration error: "@ + what@,
            PluginError::Io(what) => "IO error: "@ + what@,
        }
    }

    /// The message of the error.
    pub fn to_string(&self) -> (r: String)
        ensures
            r@ == self.message(),
    {
        let (head, what) = match self {
            PluginError::NotFound(what) => ("plugin not found: ", what),
            PluginError::InitFailed(what) => ("plugin initialization failed: ", what),
            PluginError::ExecutionFailed(what) => ("plugin execution failed: ", what),
            PluginError::ConfigError(what) => ("plugin configuration error: ", what),
            PluginError::Io(what) => ("IO error: ", what),
        };
        let mut out = String::from_str(head);
        out.append(what.as_str());
        out
    }
}

/// Parses raw commit messages into structured data.
pub trait CommitParser: Plugin {
    /// The classification that this parser gives to a commit; `None` where
    /// the message does not match the format it expects. A parser that does
    /// not say what it computes leaves this open.
    open spec fn classification(&self, raw: RawCommitView) -> Option<ParsedCommitView> {
        vstd::pervasive::arbitrary()
    }

    /// Parses a raw commit into a parsed commit.
    ///
    /// Returns `None` if the commit message doesn't match the expected format.
    fn parse(&self, raw: &RawCommit) -> (r: Option<ParsedCommit>)
        ensures
            match r {
                Some(parsed) => self.classification(raw@) == Some(parsed@),
                None => self.classification(raw@) is None,
            },
    ;

    /// Returns whether this parser can handle the given commit.
    fn can_parse(&self, raw: &RawCommit) -> (r: bool)
        ensures
            r == self.classification(raw@) is Some,
    {
        self.parse(raw).is_some()
    }
}

/// A release to be formatted.
#[derive(Debug, Clone, PartialEq, Eq)]
pub struct Release {
    /// The release version.
    pub version: Version,
    /// The release date, in seconds since the Unix epoch.
    pub date: i64,
    /// The commits in this release.
    pub commits: Vec<ParsedCommit>,
    /// The previous version (for comparison links).
    pub previous_version: Option<Version>,
    /// The repository URL (for links).
    pub repository_url: Option<String>,
}

/// The mathematical content of a [`Release`].
pub struct ReleaseView {
    pub version: VersionView,
    pub date: int,
    pub commits: Seq<ParsedCommitView>,
    pub previous_version: Option<VersionView>,
    pub repository_url: Option<Seq<char>>,
}

impl View for Release {
    type V = ReleaseView;

    open spec fn view(&self) -> ReleaseView {
        ReleaseView {
            version: self.version@,
            date: self.date as int,
            commits: commit_views(self.commits@),
            previous_version: crate::version::opt_version(self.previous_version),
            repository_url: opt_text(self.repository_url),
        }
    }
}

impl Release {
    /// Creates a new release.
    pub fn new(version: Version, date: i64, commits: Vec<ParsedCommit>) -> (r: Release)
        ensures
            r@ == (ReleaseView {
                version: version@,
                date: date as int,
                commits: commit_views(commits@),
                previous_version: None,
                repository_url: None,
            }),
    {
        Release { version, date, commits, previous_version: None, repository_url: None }
    }

    /// Sets the previous version.
    pub fn with_previous_version(self, version: Version) -> (r: Release)
        ensures
            r@ == (ReleaseView { previous_version: Some(version@), ..self@ }),
    {
        Release {
            version: self.version,
            date: self.date,
            commits: self.commits,
            previous_version: Some(version),
            repository_url: self.repository_url,
        }
    }

    /// Sets the repository URL.
    pub fn with_repository_url(self, url: &str) -> (r: Release)
        ensures
            r@ == (ReleaseView { repository_url: Some(url@), ..self@ }),
    {
        Release {
            version: self.version,
            date: self.date,
            commits: self.commits,
            previous_version: self.previous_version,
            repository_url: Some(String::from_str(url)),
        }
    }
}

/// Configuration for the changelog formatter.
#[derive(Debug, Clone, PartialEq, Eq)]
pub struct FormatterConfig {
    /// Group commits by type.
    pub group_by_type: bool,
    /// Group commits by scope.
    pub group_by_scope: bool,
    /// Include commit hashes in output.
    pub include_hashes: bool,
    /// Include commit authors in output.
    pub include_authors: bool,
    /// Custom type labels (e.g., "feat" -> "Features"), as pairs of type and
    /// label.
    pub type_labels: Vec<(String, String)>,
}

/// The mathematical content of a [`FormatterConfig`].
pub struct FormatterConfigView {
    pub group_by_type: bool,
    pub group_by_scope: bool,
    pub include_hashes: bool,
    pub include_authors: bool,
    pub type_labels: Seq<(Seq<char>, Seq<char>)>,
}

impl View for FormatterConfig {
    type V = FormatterConfigView;

    open spec fn view(&self) -> FormatterConfigView {
        FormatterConfigView {
            group_by_type: self.group_by_type,
            group_by_scope: self.group_by_scope,
            include_hashes: self.include_hashes,
            include_authors: self.include_authors,
            type_labels: pair_texts(self.type_labels@),
        }
    }
}

impl Default for FormatterConfig {
    fn default() -> (r: FormatterConfig)
        ensures
            r@ == (FormatterConfigView {
                group_by_type: false,
                group_by_scope: false,
                include_hashes: false,
                include_authors: false,
                type_labels: Seq::empty(),
            }),
    {
        let r = FormatterConfig {
            group_by_type: false,
            group_by_scope: false,
            include_hashes: false,
            include_authors: false,
            type_labels: Vec::new(),
        };
        assert(r@.type_labels =~= Seq::empty());
        r
    }
}

/// Formats changelog output.
pub trait ChangelogFormatter: Plugin {
    /// The changelog text that this formatter gives to a release. A
    /// formatter that does not say what it computes leaves this open.
    open spec fn rendering(&self, release: ReleaseView, config: FormatterConfigView) -> Seq<
        char,
    > {
        vstd::pervasive::arbitrary()
    }

    /// Formats a release into a changelog string.
    fn format(&self, release: &Release, config: &FormatterConfig) -> (r: String)
        ensures
            r@ == self.rendering(release@, config@),
    ;

    /// Returns the file extension for the output: `md`, unless the
    /// formatter names another.
    fn extension(&self) -> (r: &'static str)
        default_ensures
            r@ == "md"@,
    {
        "md"
    }
}

/// Shared state passed to all hooks during the release process.
#[derive(Debug, Clone, PartialEq, Eq)]
pub struct ReleaseContext {
    /// Path to the repository root.
    pub repo_path: String,
    /// The previous version (before bump).
    pub previous_version: Version,
    /// The next version (after bump).
    pub next_version: Version,
    /// The determined bump type.
    pub bump_type: BumpType,
    /// All parsed commits since last release.
    pub commits: Vec<ParsedCommit>,
    /// The generated changelog (populated after formatter runs).
    pub changelog: Option<String>,
    /// Whether this is a dry run (no actual changes).
    pub dry_run: bool,
    /// Arbitrary metadata for inter-hook communication: keys with values in
    /// JSON text.
    pub metadata: Vec<(String, String)>,
}

/// The mathematical content of a [`ReleaseContext`].
pub struct ReleaseContextView {
    pub repo_path: Seq<char>,
    pub previous_version: VersionView,
    pub next_version: VersionView,
    pub bump_type: BumpType,
    pub commits: Seq<ParsedCommitView>,
    pub changelog: Option<Seq<char>>,
    pub dry_run: bool,
    pub metadata: Seq<(Seq<char>, Seq<char>)>,
}

impl View for ReleaseContext {
    type V = ReleaseContextView;

    open spec fn view(&self) -> ReleaseContextView {
        ReleaseContextView {
            repo_path: self.repo_path@,
            previous_version: self.previous_version@,
            next_version: self.next_version@,
            bump_type: self.bump_type,
            commits: commit_views(self.commits@),
            changelog: opt_text(self.changelog),
            dry_run: self.dry_run,
            metadata: pair_texts(self.metadata@),
        }
    }
}

impl ReleaseContext {
    /// Creates a new release context.
    pub fn new(
        repo_path: &str,
        previous_version: Version,
        next_version: Version,
        bump_type: BumpType,
        commits: Vec<ParsedCommit>,
    ) -> (r: ReleaseContext)
        ensures
            r@ == (ReleaseContextView {
                repo_path: repo_path@,
                previous_version: previous_version@,
                next_version: next_version@,
                bump_type,
                commits: commit_views(commits@),
                changelog: None,
                dry_run: false,
                metadata: Seq::empty(),
            }),
    {
        let r = ReleaseContext {
            repo_path: String::from_str(repo_path),
            previous_version,
            next_version,
            bump_type,
            commits,
            changelog: None,
            dry_run: false,
            metadata: Vec::new(),
        };
        assert(r@.metadata == Seq::<(Seq<char>, Seq<char>)>::empty());
        r
    }

    /// Sets the dry run flag.
    pub fn dry_run(self, dry_run: bool) -> (r: ReleaseContext)
        ensures
            r@ == (ReleaseContextView { dry_run, ..self@ }),
    {
        ReleaseContext {
            repo_path: self.repo_path,
            previous_version: self.previous_version,
            next_version: self.next_version,
            bump_type: self.bump_type,
            commits: self.commits,
            changelog: self.changelog,
            dry_run,
            metadata: self.metadata,
        }
    }

    /// Gets a metadata value.
    pub fn get_metadata(&self, key: &str) -> (r: Option<String>)
        ensures
            opt_text(r) == lookup(self@.metadata, key@),
    {
        get_entry(&self.metadata, key)
    }

    /// Sets a metadata value. A key that is already present gets the new
    /// value.
    pub fn set_metadata(&mut self, key: &str, value: &str)
        ensures
            final(self)@ == (ReleaseContextView {
                metadata: with_entry(old(self)@.metadata, key@, value@),
                ..old(self)@
            }),
    {
        set_entry(&mut self.metadata, key, value);
    }

    /// Returns the version tag string (e.g., "v1.2.3").
    pub fn tag(&self, prefix: &str) -> (r: String)
        ensures
            r@ == prefix@ + display(self@.next_version),
    {
        crate::version::tag_name(prefix, &self.next_version)
    }
}

/// Lifecycle hooks during the release process.
///
/// Hooks are executed at specific points in the release pipeline:
/// 1. `pre_bump` - Before version files are modified
/// 2. `post_bump` - After version files are modified
/// 3. `pre_commit` - Before the release commit is created
/// 4. `pre_tag` - Before the git tag is created
/// 5. `post_tag` - After the git tag is created
///
/// Every method succeeds and leaves the context as it was, unless a hook
/// provides the method itself.
pub trait ReleaseHook: Plugin {
    /// Called before version files are modified.
    fn on_pre_bump(&self, ctx: &mut ReleaseContext) -> (r: PluginResult<()>)
        default_ensures
            r is Ok,
            *final(ctx) == *old(ctx),
    {
        Ok(())
    }

    /// Called after version files are modified.
    fn on_post_bump(&self, ctx: &mut ReleaseContext) -> (r: PluginResult<()>)
        default_ensures
            r is Ok,
            *final(ctx) == *old(ctx),
    {
        Ok(())
    }

    /// Called before the release commit is created.
    fn on_pre_commit(&self, ctx: &mut ReleaseContext) -> (r: PluginResult<()>)
        default_ensures
            r is Ok,
            *final(ctx) == *old(ctx),
    {
        Ok(())
    }

    /// Called before the git tag is created.
    fn on_pre_tag(&self, ctx: &mut ReleaseContext) -> (r: PluginResult<()>)
        default_ensures
            r is Ok,
            *final(ctx) == *old(ctx),
    {
        Ok(())
    }

    /// Called after the git tag is created.
    fn on_post_tag(&self, ctx: &mut ReleaseContext) -> (r: PluginResult<()>)
        default_ensures
            r is Ok,
            *final(ctx) == *old(ctx),
    {
        Ok(())
    }
}

} // verus!
