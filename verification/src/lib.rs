//! Semantic version management and changelog generation for Git projects.
//!
//! Given the commits since the last version tag, the crate classifies them,
//! decides the next semantic version, updates version-bearing files, renders
//! a changelog entry and sequences the release with its hooks. Everything
//! here is computation on plain values: Git, the filesystem, the network and
//! the plugin sandbox are the caller's part.

pub mod bump;
pub mod cli;
pub mod clock;
pub mod commit;
pub mod config;
pub mod discovery;
pub mod executor;
pub mod files;
pub mod formatter;
pub mod git;
pub mod gitmoji;
pub mod hooks;
pub mod parsers;
pub mod paths;
pub mod pattern;
pub mod pipeline;
pub mod plugin;
pub mod registry;
pub mod release;
pub mod selection;
pub mod storage;
pub mod text;
pub mod version;
pub mod version_line;
pub mod wasm;

pub use bump::{BumpStrategy, BumpType, SemverBumper};
pub use cli::{
    generate_config, BumpArgs, BumpTypeArg, ChangelogArgs, Cli, Commands, InfoArgs, InitArgs,
    InstallArgs, ListArgs, ParserType, PluginArgs, PluginCommand, ProjectType, ReleaseArgs,
    RemoveArgs, SearchArgs, UpdateArgs,
};
pub use commit::{ParsedCommit, ParsedCommitBuilder, RawCommit};
pub use config::{
    BumperConfig, CargoPluginConfig, ChangelogConfig, Config, ConfigError, ConfigResult,
    ConventionalGitmojiConfig, FormatterPluginConfig, GithubReleasePluginConfig, HooksConfig,
    NpmPluginConfig, ParserConfig, PluginsConfig, VersionConfig, CONFIG_FILE_NAME,
};
pub use discovery::{
    normalize_plugin_name, parse_github_url, PluginDiscovery, PluginMetadata, SearchResult,
};
pub use executor::{
    allowed_commands, ActionResults, CommandOutput, CommandRequest, FileWriteRequest, HookAction,
    HookResult, HookState, LogLevel, LogRequest,
};
pub use files::{
    read_version_from_file, update_version_file, FileResult, FileUpdateError,
};
pub use formatter::KeepAChangelogFormatter;
pub use git::{latest_version_tag, GitError, GitResult};
pub use gitmoji::{ConventionalGitmojiParser, GitmojiParserConfig};
pub use hooks::{CargoHook, GithubReleaseHook, NpmHook};
pub use parsers::{ConventionalParser, FieldMapping, RegexParser, RegexParserConfig};
pub use paths::normalize_path;
pub use pipeline::Pipeline;
pub use plugin::{
    ChangelogFormatter, CommitParser, FormatterConfig, Plugin, PluginError, PluginResult, Release,
    ReleaseContext, ReleaseHook, PACKAGE_VERSION,
};
pub use registry::{InstalledPlugin, PluginRegistry};
pub use release::{CoreError, CoreResult, ReleaseManager};
pub use selection::{create_parser, ConfiguredParser};
pub use storage::{
    PluginManagerError, PluginManagerResult, PluginStorage, PluginType,
};
pub use version::{Precedence, Version, VersionManager, VersionParseError};
pub use wasm::{BumperState, FormatterState, ParserState, PluginInfo, WasmError, WasmResult};
