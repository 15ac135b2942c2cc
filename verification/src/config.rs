//! Configuration schema of `unduler.toml`, with its defaults.

use crate::text::texts;
use vstd::prelude::*;

verus! {

/// Default configuration file name.
pub const CONFIG_FILE_NAME: &'static str = "unduler.toml";

/// Main configuration structure.
#[derive(Debug, Clone, PartialEq, Eq)]
pub struct Config {
    /// Parser configuration.
    pub parser: ParserConfig,
    /// Bumper configuration.
    pub bumper: BumperConfig,
    /// Formatter configuration.
    pub formatter: FormatterPluginConfig,
    /// Hooks configuration.
    pub hooks: HooksConfig,
    /// Version configuration.
    pub version: VersionConfig,
    /// Changelog configuration.
    pub changelog: ChangelogConfig,
    /// Plugin-specific configuration.
    pub plugins: PluginsConfig,
}

/// The configuration is the one that applies where nothing is configured.
pub open spec fn is_default_config(config: Config) -> bool {
    &&& is_default_parser_config(config.parser)
    &&& config.bumper.name@ == "semver"@
    &&& config.formatter.name@ == "keepachangelog"@
    &&& config.hooks.pre_bump@.len() == 0
    &&& config.hooks.post_bump@.len() == 0
    &&& config.hooks.pre_commit@.len() == 0
    &&& config.hooks.pre_tag@.len() == 0
    &&& config.hooks.post_tag@.len() == 0
    &&& texts(config.version.files@) == seq!["Cargo.toml"@]
    &&& config.version.tag_prefix@ == "v"@
    &&& config.changelog.output@ == "CHANGELOG.md"@
    &&& !config.plugins.cargo.publish
    &&& config.plugins.cargo.registry is None
    &&& !config.plugins.npm.publish
    &&& config.plugins.npm.registry is None
    &&& !config.plugins.github_release.draft
    &&& !config.plugins.github_release.prerelease
    &&& config.plugins.github_release.assets@.len() == 0
}

/// The parser configuration is the one that applies where nothing is
/// configured: the conventional parser, the type inferred from the emoji
/// where the gitmoji parser is chosen, unknown emojis let through, no
/// pattern.
pub open spec fn is_default_parser_config(config: ParserConfig) -> bool {
    &&& config.name@ == "conventional"@
    &&& config.conventional_gitmoji.infer_type_from_emoji
    &&& !config.conventional_gitmoji.strict_emoji
    &&& config.regex.pattern is None
    &&& config.regex.mapping@.len() == 0
    &&& config.regex.validation@.len() == 0
}

impl Default for Config {
    fn default() -> (r: Config)
        ensures
            is_default_config(r),
    {
        Config {
            parser: ParserConfig::default(),
            bumper: BumperConfig::default(),
            formatter: FormatterPluginConfig::default(),
            hooks: HooksConfig::default(),
            version: VersionConfig::default(),
            changelog: ChangelogConfig::default(),
            plugins: PluginsConfig::default(),
        }
    }
}

/// Parser configuration.
#[derive(Debug, Clone, PartialEq, Eq)]
pub struct ParserConfig {
    /// Parser plugin name.
    pub name: String,
    /// Gitmoji-specific options.
    pub conventional_gitmoji: ConventionalGitmojiConfig,
    /// Regex-specific options.
    pub regex: RegexParserConfig,
}

/// The name of the parser that is used where none is configured.
pub fn default_parser() -> (r: String)
    ensures
        r@ == "conventional"@,
{
    String::from_str("conventional")
}

/// The value of an option that is on unless configured otherwise.
pub fn default_true() -> (r: bool)
    ensures
        r,
{
    true
}

/// The name of the bumper that is used where none is configured.
pub fn default_bumper() -> (r: String)
    ensures
        r@ == "semver"@,
{
    String::from_str("semver")
}

/// The name of the formatter that is used where none is configured.
pub fn default_formatter() -> (r: String)
    ensures
        r@ == "keepachangelog"@,
{
    String::from_str("keepachangelog")
}

/// The tag prefix that is used where none is configured.
pub fn default_tag_prefix() -> (r: String)
    ensures
        r@ == "v"@,
{
    String::from_str("v")
}

/// The changelog file that is used where none is configured.
pub fn default_changelog_output() -> (r: String)
    ensures
        r@ == "CHANGELOG.md"@,
{
    String::from_str("CHANGELOG.md")
}

impl Default for ParserConfig {
    fn default() -> (r: ParserConfig)
        ensures
            is_default_parser_config(r),
    {
        ParserConfig {
            name: default_parser(),
            conventional_gitmoji: ConventionalGitmojiConfig::default(),
            regex: RegexParserConfig::default(),
        }
    }
}

/// Conventional + Gitmoji parser options.
#[derive(Debug, Clone, Copy, PartialEq, Eq)]
pub struct ConventionalGitmojiConfig {
    /// Infer type from emoji if not explicitly provided.
    pub infer_type_from_emoji: bool,
    /// Reject commits with unknown emojis.
    pub strict_emoji: bool,
}

impl Default for ConventionalGitmojiConfig {
    fn default() -> (r: ConventionalGitmojiConfig)
        ensures
            r.infer_type_from_emoji,
            !r.strict_emoji,
    {
        ConventionalGitmojiConfig { infer_type_from_emoji: default_true(), strict_emoji: false }
    }
}

/// Regex parser options.
#[derive(Debug, Clone, PartialEq, Eq)]
pub struct RegexParserConfig {
    /// The regex pattern.
    pub pattern: Option<String>,
    /// Mapping of commit fields to capture groups, as pairs of field and
    /// group name.
    pub mapping: Vec<(String, String)>,
    /// Validation rules for captured values, as pairs of field and the
    /// values allowed for it.
    pub validation: Vec<(String, Vec<String>)>,
}

impl Default for RegexParserConfig {
    fn default() -> (r: RegexParserConfig)
        ensures
            r.pattern is None,
            r.mapping@.len() == 0,
            r.validation@.len() == 0,
    {
        RegexParserConfig { pattern: None, mapping: Vec::new(), validation: Vec::new() }
    }
}

/// Bumper configuration.
#[derive(Debug, Clone, PartialEq, Eq)]
pub struct BumperConfig {
    /// Bumper plugin name.
    pub name: String,
}

impl Default for BumperConfig {
    fn default() -> (r: BumperConfig)
        ensures
            r.name@ == "semver"@,
    {
        BumperConfig { name: default_bumper() }
    }
}

/// Formatter configuration.
#[derive(Debug, Clone, PartialEq, Eq)]
pub struct FormatterPluginConfig {
    /// Formatter plugin name.
    pub name: String,
}

impl Default for FormatterPluginConfig {
    fn default() -> (r: FormatterPluginConfig)
        ensures
            r.name@ == "keepachangelog"@,
    {
        FormatterPluginConfig { name: default_formatter() }
    }
}

/// Hooks configuration.
#[derive(Debug, Clone, PartialEq, Eq)]
pub struct HooksConfig {
    /// Hooks to run before bump.
    pub pre_bump: Vec<String>,
    /// Hooks to run after bump.
    pub post_bump: Vec<String>,
    /// Hooks to run before commit.
    pub pre_commit: Vec<String>,
    /// Hooks to run before tag.
    pub pre_tag: Vec<String>,
    /// Hooks to run after tag.
    pub post_tag: Vec<String>,
}

impl Default for HooksConfig {
    fn default() -> (r: HooksConfig)
        ensures
            r.pre_bump@.len() == 0,
            r.post_bump@.len() == 0,
            r.pre_commit@.len() == 0,
            r.pre_tag@.len() == 0,
            r.post_tag@.len() == 0,
    {
        HooksConfig {
            pre_bump: Vec::new(),
            post_bump: Vec::new(),
            pre_commit: Vec::new(),
            pre_tag: Vec::new(),
            post_tag: Vec::new(),
        }
    }
}

/// Version configuration.
#[derive(Debug, Clone, PartialEq, Eq)]
pub struct VersionConfig {
    /// Files containing version information.
    pub files: Vec<String>,
    /// Tag prefix (e.g., "v").
    pub tag_prefix: String,
}

impl Default for VersionConfig {
    fn default() -> (r: VersionConfig)
        ensures
            texts(r.files@) == seq!["Cargo.toml"@],
            r.tag_prefix@ == "v"@,
    {
        let mut files: Vec<String> = Vec::new();
        files.push(String::from_str("Cargo.toml"));
        assert(texts(files@) == seq!["Cargo.toml"@]);
        VersionConfig { files, tag_prefix: default_tag_prefix() }
    }
}

/// Changelog configuration.
#[derive(Debug, Clone, PartialEq, Eq)]
pub struct ChangelogConfig {
    /// Output file path.
    pub output: String,
}

impl Default for ChangelogConfig {
    fn default() -> (r: ChangelogConfig)
        ensures
            r.output@ == "CHANGELOG.md"@,
    {
        ChangelogConfig { output: default_changelog_output() }
    }
}

/// Plugin-specific configuration.
#[derive(Debug, Clone, PartialEq, Eq)]
pub struct PluginsConfig {
    /// Cargo hook configuration.
    pub cargo: CargoPluginConfig,
    /// npm hook configuration.
    pub npm: NpmPluginConfig,
    /// GitHub Release hook configuration.
    pub github_release: GithubReleasePluginConfig,
}

impl Default for PluginsConfig {
    fn default() -> (r: PluginsConfig)
        ensures
            !r.cargo.publish,
            r.cargo.registry is None,
            !r.npm.publish,
            r.npm.registry is None,
            !r.github_release.draft,
            !r.github_release.prerelease,
            r.github_release.assets@.len() == 0,
    {
        PluginsConfig {
            cargo: CargoPluginConfig::default(),
            npm: NpmPluginConfig::default(),
            github_release: GithubReleasePluginConfig::default(),
        }
    }
}

/// Cargo plugin configuration.
#[derive(Debug, Clone, PartialEq, Eq)]
pub struct CargoPluginConfig {
    /// Publish to crates.io after release.
    pub publish: bool,
    /// Registry to publish to.
    pub registry: Option<String>,
}

impl Default for CargoPluginConfig {
    fn default() -> (r: CargoPluginConfig)
        ensures
            !r.publish,
            r.registry is None,
    {
        CargoPluginConfig { publish: false, registry: None }
    }
}

/// npm plugin configuration.
#[derive(Debug, Clone, PartialEq, Eq)]
pub struct NpmPluginConfig {
    /// Publish to npm after release.
    pub publish: bool,
    /// Registry to publish to.
    pub registry: Option<String>,
}

impl Default for NpmPluginConfig {
    fn default() -> (r: NpmPluginConfig)
        ensures
            !r.publish,
            r.registry is None,
    {
        NpmPluginConfig { publish: false, registry: None }
    }
}

/// GitHub Release plugin configuration.
#[derive(Debug, Clone, PartialEq, Eq)]
pub struct GithubReleasePluginConfig {
    /// Create release as draft.
    pub draft: bool,
    /// Mark release as prerelease.
    pub prerelease: bool,
    /// Assets to upload.
    pub assets: Vec<String>,
}

impl Default for GithubReleasePluginConfig {
    fn default() -> (r: GithubReleasePluginConfig)
        ensures
            !r.draft,
            !r.prerelease,
            r.assets@.len() == 0,
    {
        GithubReleasePluginConfig { draft: false, prerelease: false, assets: Vec::new() }
    }
}

/// Configuration-related errors.
#[derive(Debug, Clone, PartialEq, Eq)]
pub enum ConfigError {
    /// Configuration file not found.
    NotFound(String),
    /// Invalid TOML syntax.
    InvalidToml(String),
    /// Invalid configuration value.
    Invalid(String),
    /// IO error.
    Io(String),
}

/// Result type for configuration operations.
pub type ConfigResult<T> = Result<T, ConfigError>;

impl ConfigError {
    /// The message of the error.
    pub open spec fn message(self) -> Seq<char> {
        match self {
            ConfigError::NotFound(path) => "configuration file not found: "@ + path@,
            ConfigError::InvalidToml(what) => "invalid TOML: "@ + what@,
            ConfigError::Invalid(what) => "invalid configuration: "@ + what@,
            ConfigError::Io(what) => "IO error: "@ + what@,
        }
    }

    /// The message of the error.
    pub fn to_string(&self) -> (r: String)
        ensures
            r@ == self.message(),
    {
        let (head, what) = match self {
            ConfigError::NotFound(path) => ("configuration file not found: ", path),
            ConfigError::InvalidToml(what) => ("invalid TOML: ", what),
            ConfigError::Invalid(what) => ("invalid configuration: ", what),
            ConfigError::Io(what) => ("IO error: ", what),
        };
        let mut out = String::from_str(head);
        out.append(what.as_str());
        out
    }
}

} // verus!
