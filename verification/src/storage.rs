//! Local plugin storage layout.
//!
//! Plugins are stored under a base directory (`~/.unduler` by default):
//! `plugins/<kind>-<short>/<X.Y.Z>.wasm` holds a binary component, and
//! `registry.toml` the records of what is installed. This module derives
//! those paths and splits crate names; it does not touch the disk.

use crate::paths::{join_path, joined};
use crate::text::{has_prefix, strip_prefix};
use crate::version::{display, Version, VersionView};
use vstd::prelude::*;

verus! {

/// Plugin type derived from plugin name prefix.
#[derive(Debug, Clone, Copy, PartialEq, Eq, Structural)]
pub enum PluginType {
    Parser,
    Bumper,
    Formatter,
    Hook,
}

impl PluginType {
    /// The name of the kind, as the registry file spells it.
    pub open spec fn label(self) -> Seq<char> {
        match self {
            PluginType::Parser => "parser"@,
            PluginType::Bumper => "bumper"@,
            PluginType::Formatter => "formatter"@,
            PluginType::Hook => "hook"@,
        }
    }

    /// The prefix of the directory of a plugin of this kind.
    pub open spec fn dir_prefix(self) -> Seq<char> {
        match self {
            PluginType::Parser => "parser-"@,
            PluginType::Bumper => "bumper-"@,
            PluginType::Formatter => "formatter-"@,
            PluginType::Hook => "hook-"@,
        }
    }

    /// The prefix of the crate name of a plugin of this kind.
    pub open spec fn name_prefix(self) -> Seq<char> {
        match self {
            PluginType::Parser => "unduler-parser-"@,
            PluginType::Bumper => "unduler-bumper-"@,
            PluginType::Formatter => "unduler-formatter-"@,
            PluginType::Hook => "unduler-hook-"@,
        }
    }

    /// Returns the prefix for this plugin type.
    pub fn prefix(&self) -> (r: &'static str)
        ensures
            r@ == self.dir_prefix(),
    {
        match self {
            PluginType::Parser => "parser-",
            PluginType::Bumper => "bumper-",
            PluginType::Formatter => "formatter-",
            PluginType::Hook => "hook-",
        }
    }

    /// Returns the full crate name prefix.
    pub fn crate_prefix(&self) -> (r: &'static str)
        ensures
            r@ == self.name_prefix(),
    {
        match self {
            PluginType::Parser => "unduler-parser-",
            PluginType::Bumper => "unduler-bumper-",
            PluginType::Formatter => "unduler-formatter-",
            PluginType::Hook => "unduler-hook-",
        }
    }

    /// The name of the kind, as the registry file spells it.
    pub fn as_str(&self) -> (r: &'static str)
        ensures
            r@ == self.label(),
    {
        match self {
            PluginType::Parser => "parser",
            PluginType::Bumper => "bumper",
            PluginType::Formatter => "formatter",
            PluginType::Hook => "hook",
        }
    }

    /// The kind that a name in the registry file stands for.
    pub fn from_label(label: &str) -> (r: Option<PluginType>)
        ensures
            match r {
                Some(kind) => kind.label() == label@,
                None => forall|kind: PluginType| kind.label() != label@,
            },
    {
        if crate::text::str_eq(label, "parser") {
            Some(PluginType::Parser)
        } else if crate::text::str_eq(label, "bumper") {
            Some(PluginType::Bumper)
        } else if crate::text::str_eq(label, "formatter") {
            Some(PluginType::Formatter)
        } else if crate::text::str_eq(label, "hook") {
            Some(PluginType::Hook)
        } else {
            None
        }
    }
}

/// The kind and short name that a crate name stands for: the first kind, in
/// the order parser, bumper, formatter, hook, whose prefix the name has, and
/// what follows that prefix.
pub open spec fn split_crate_name(name: Seq<char>) -> Option<(PluginType, Seq<char>)> {
    if has_prefix(name, PluginType::Parser.name_prefix()) {
        Some((PluginType::Parser, name.skip(PluginType::Parser.name_prefix().len() as int)))
    } else if has_prefix(name, PluginType::Bumper.name_prefix()) {
        Some((PluginType::Bumper, name.skip(PluginType::Bumper.name_prefix().len() as int)))
    } else if has_prefix(name, PluginType::Formatter.name_prefix()) {
        Some((PluginType::Formatter, name.skip(PluginType::Formatter.name_prefix().len() as int)))
    } else if has_prefix(name, PluginType::Hook.name_prefix()) {
        Some((PluginType::Hook, name.skip(PluginType::Hook.name_prefix().len() as int)))
    } else {
        None
    }
}

/// The crate name of the plugin of kind `kind` with short name `short`.
pub open spec fn crate_name_of(kind: PluginType, short: Seq<char>) -> Seq<char> {
    kind.name_prefix() + short
}

/// The directory that holds the plugins, under `base`.
pub open spec fn plugins_dir_of(base: Seq<char>) -> Seq<char> {
    joined(base, "plugins"@)
}

/// The registry file, under `base`.
pub open spec fn registry_path_of(base: Seq<char>) -> Seq<char> {
    joined(base, "registry.toml"@)
}

/// The file of one version of a plugin, under `base`:
/// `plugins/<kind>-<short>/<X.Y.Z>.wasm`.
pub open spec fn plugin_path_of(
    base: Seq<char>,
    short: Seq<char>,
    kind: PluginType,
    version: VersionView,
) -> Seq<char> {
    joined(joined(plugins_dir_of(base), kind.dir_prefix() + short), display(version) + ".wasm"@)
}

/// The directory of a plugin, under `base`: `plugins/<kind>-<short>`.
pub open spec fn plugin_dir_of(base: Seq<char>, short: Seq<char>, kind: PluginType) -> Seq<char> {
    joined(plugins_dir_of(base), kind.dir_prefix() + short)
}

/// The default base directory under a home directory.
pub open spec fn default_base_of(home: Seq<char>) -> Seq<char> {
    joined(home, ".unduler"@)
}

/// Manages local plugin storage.
#[derive(Debug, Clone, PartialEq, Eq)]
pub struct PluginStorage {
    base_dir: String,
}

impl PluginStorage {
    /// The base directory.
    pub closed spec fn base(&self) -> Seq<char> {
        self.base_dir@
    }

    /// The default base directory (`.unduler` in the home directory), where
    /// the home directory is known.
    pub fn default_base_dir(home: Option<&str>) -> (r: Option<String>)
        ensures
            match home {
                Some(h) => r is Some && r->0@ == default_base_of(h@),
                None => r is None,
            },
    {
        match home {
            Some(h) => Some(join_path(h, ".unduler")),
            None => None,
        }
    }

    /// Creates a new plugin storage instance with a custom base directory.
    pub fn with_base_dir(base_dir: &str) -> (r: PluginStorage)
        ensures
            r.base() == base_dir@,
    {
        PluginStorage { base_dir: String::from_str(base_dir) }
    }

    /// Returns the base directory path.
    pub fn base_dir(&self) -> (r: &str)
        ensures
            r@ == self.base(),
    {
        self.base_dir.as_str()
    }

    /// Returns the plugins directory path.
    pub fn plugins_dir(&self) -> (r: String)
        ensures
            r@ == plugins_dir_of(self.base()),
    {
        join_path(self.base_dir.as_str(), "plugins")
    }

    /// Returns the registry file path.
    pub fn registry_path(&self) -> (r: String)
        ensures
            r@ == registry_path_of(self.base()),
    {
        join_path(self.base_dir.as_str(), "registry.toml")
    }

    /// Returns the directory of a plugin.
    pub fn plugin_dir(&self, short_name: &str, plugin_type: PluginType) -> (r: String)
        ensures
            r@ == plugin_dir_of(self.base(), short_name@, plugin_type),
    {
        let mut dir_name = String::from_str(plugin_type.prefix());
        dir_name.append(short_name);
        join_path(self.plugins_dir().as_str(), dir_name.as_str())
    }

    /// Returns the path for a specific plugin version.
    ///
    /// # Arguments
    ///
    /// * `short_name` - The short plugin name (e.g., "conventional" for parser-conventional)
    /// * `plugin_type` - The type of plugin
    /// * `version` - The plugin version
    pub fn plugin_path(&self, short_name: &str, plugin_type: PluginType, version: &Version) -> (r:
        String)
        ensures
            r@ == plugin_path_of(self.base(), short_name@, plugin_type, version@),
    {
        let mut file_name = version.to_string();
        file_name.append(".wasm");
        join_path(self.plugin_dir(short_name, plugin_type).as_str(), file_name.as_str())
    }

    /// Parses a full crate name into plugin type and short name. A name
    /// without one of the four prefixes is no plugin name.
    pub fn parse_crate_name(crate_name: &str) -> (r: Result<
        (PluginType, String),
        PluginManagerError,
    >)
        ensures
            match r {
                Ok(found) => split_crate_name(crate_name@) == Some((found.0, found.1@)),
                Err(e) => split_crate_name(crate_name@) is None && e.is_invalid_name(crate_name@),
            },
    {
        if let Some(short) = strip_prefix(crate_name, PluginType::Parser.crate_prefix()) {
            return Ok((PluginType::Parser, short));
        }
        if let Some(short) = strip_prefix(crate_name, PluginType::Bumper.crate_prefix()) {
            return Ok((PluginType::Bumper, short));
        }
        if let Some(short) = strip_prefix(crate_name, PluginType::Formatter.crate_prefix()) {
            return Ok((PluginType::Formatter, short));
        }
        if let Some(short) = strip_prefix(crate_name, PluginType::Hook.crate_prefix()) {
            return Ok((PluginType::Hook, short));
        }
        Err(PluginManagerError::InvalidPluginName { name: String::from_str(crate_name) })
    }
}

/// Plugin manager error types.
#[derive(Debug, Clone, PartialEq, Eq)]
pub enum PluginManagerError {
    /// Failed to create storage directory.
    StorageCreation { path: String, reason: String },
    /// Plugin not found in registry.
    PluginNotFound { name: String },
    /// Plugin already installed.
    AlreadyInstalled { name: String, version: String },
    /// Failed to fetch crate metadata from crates.io.
    CratesIoFetch { name: String, reason: String },
    /// Crate not found on crates.io.
    CrateNotFound { name: String },
    /// Invalid crate metadata (missing required fields).
    InvalidMetadata { name: String, reason: String },
    /// Failed to download plugin from GitHub.
    DownloadFailed { name: String, url: String, reason: String },
    /// GitHub release not found.
    ReleaseNotFound { name: String, version: String },
    /// WASM asset not found in release.
    WasmAssetNotFound { name: String, version: String },
    /// Failed to save plugin file.
    SaveFailed { path: String, reason: String },
    /// Failed to read registry file.
    RegistryRead(String),
    /// Failed to write registry file.
    RegistryWrite(String),
    /// Failed to parse registry file.
    RegistryParse(String),
    /// Failed to serialize registry file.
    RegistrySerialize(String),
    /// Failed to load WASM plugin.
    WasmLoad { name: String, reason: String },
    /// Plugin type mismatch.
    TypeMismatch { name: String, expected: String, actual: String },
    /// Invalid plugin name.
    InvalidPluginName { name: String },
    /// IO error.
    Io(String),
}

/// Result type for plugin manager operations.
pub type PluginManagerResult<T> = Result<T, PluginManagerError>;

impl PluginManagerError {
    /// The error says that `name` is no plugin name.
    pub open spec fn is_invalid_name(self, name: Seq<char>) -> bool {
        self matches PluginManagerError::InvalidPluginName { name: n } && n@ == name
    }

    /// The error says that the plugin `name` is not installed.
    pub open spec fn is_not_found(self, name: Seq<char>) -> bool {
        self matches PluginManagerError::PluginNotFound { name: n } && n@ == name
    }

    /// The error says that version `version` of the plugin `name` is
    /// installed already.
    pub open spec fn is_already_installed(self, name: Seq<char>, version: Seq<char>) -> bool {
        self matches PluginManagerError::AlreadyInstalled { name: n, version: v } && n@ == name
            && v@ == version
    }

    /// The error says that the metadata of `name` is not usable, for the
    /// reason `why`.
    pub open spec fn is_invalid_metadata(self, name: Seq<char>, why: Seq<char>) -> bool {
        self matches PluginManagerError::InvalidMetadata { name: n, reason } && n@ == name
            && reason@ == why
    }

    /// The error says that no release `version` of `name` was found.
    pub open spec fn is_release_not_found(self, name: Seq<char>, version: Seq<char>) -> bool {
        self matches PluginManagerError::ReleaseNotFound { name: n, version: v } && n@ == name
            && v@ == version
    }

    /// The error says that the release `version` of `name` holds no binary.
    pub open spec fn is_asset_not_found(self, name: Seq<char>, version: Seq<char>) -> bool {
        self matches PluginManagerError::WasmAssetNotFound { name: n, version: v } && n@ == name
            && v@ == version
    }

    /// The error says that fetching `url` for `name` failed, for the reason
    /// `why`.
    pub open spec fn is_download_failed(self, name: Seq<char>, url: Seq<char>, why: Seq<char>)
        -> bool {
        self matches PluginManagerError::DownloadFailed { name: n, url: u, reason } && n@ == name
            && u@ == url && reason@ == why
    }

    /// The message of the error.
    pub open spec fn message(self) -> Seq<char> {
        match self {
            PluginManagerError::StorageCreation { path, reason } =>
                "failed to create storage directory: "@ + path@,
            PluginManagerError::PluginNotFound { name } => "plugin not found: "@ + name@,
            PluginManagerError::AlreadyInstalled { name, version } =>
                "plugin already installed: "@ + name@ + " v"@ + version@,
            PluginManagerError::CratesIoFetch { name, reason } =>
                "failed to fetch crate metadata for "@ + name@,
            PluginManagerError::CrateNotFound { name } => "crate not found on crates.io: "@
                + name@,
            PluginManagerError::InvalidMetadata { name, reason } =>
                "invalid crate metadata for "@ + name@ + ": "@ + reason@,
            PluginManagerError::DownloadFailed { name, url, reason } =>
                "failed to download plugin "@ + name@ + " from "@ + url@,
            PluginManagerError::ReleaseNotFound { name, version } =>
                "GitHub release not found for "@ + name@ + " v"@ + version@,
            PluginManagerError::WasmAssetNotFound { name, version } =>
                "WASM asset not found in release for "@ + name@ + " v"@ + version@,
            PluginManagerError::SaveFailed { path, reason } => "failed to save plugin to "@
                + path@,
            PluginManagerError::RegistryRead(reason) => "failed to read registry file"@,
            PluginManagerError::RegistryWrite(reason) => "failed to write registry file"@,
            PluginManagerError::RegistryParse(reason) => "failed to parse registry file"@,
            PluginManagerError::RegistrySerialize(reason) => "failed to serialize registry"@,
            PluginManagerError::WasmLoad { name, reason } => "failed to load WASM plugin: "@
                + name@,
            PluginManagerError::TypeMismatch { name, expected, actual } =>
                "plugin type mismatch for "@ + name@ + ": expected "@ + expected@ + ", got "@
                    + actual@,
            PluginManagerError::InvalidPluginName { name } => "invalid plugin name: "@ + name@
                + ". Must start with 'unduler-parser-', 'unduler-bumper-', 'unduler-formatter-', or 'unduler-hook-'"@,
            PluginManagerError::Io(reason) => "IO error: "@ + reason@,
        }
    }

    /// The message of the error.
    pub fn to_string(&self) -> (r: String)
        ensures
            r@ == self.message(),
    {
        match self {
            PluginManagerError::StorageCreation { path, reason } => {
                let mut out = String::from_str("failed to create storage directory: ");
                out.append(path.as_str());
                out
            },
            PluginManagerError::PluginNotFound { name } => {
                let mut out = String::from_str("plugin not found: ");
                out.append(name.as_str());
                out
            },
            PluginManagerError::AlreadyInstalled { name, version } => {
                let mut out = String::from_str("plugin already installed: ");
                out.append(name.as_str());
                out.append(" v");
                out.append(version.as_str());
                out
            },
            PluginManagerError::CratesIoFetch { name, reason } => {
                let mut out = String::from_str("failed to fetch crate metadata for ");
                out.append(name.as_str());
                out
            },
            PluginManagerError::CrateNotFound { name } => {
                let mut out = String::from_str("crate not found on crates.io: ");
                out.append(name.as_str());
                out
            },
            PluginManagerError::InvalidMetadata { name, reason } => {
                let mut out = String::from_str("invalid crate metadata for ");
                out.append(name.as_str());
                out.append(": ");
                out.append(reason.as_str());
                out
            },
            PluginManagerError::DownloadFailed { name, url, reason } => {
                let mut out = String::from_str("failed to download plugin ");
                out.append(name.as_str());
                out.append(" from ");
                out.append(url.as_str());
                out
            },
            PluginManagerError::ReleaseNotFound { name, version } => {
                let mut out = String::from_str("GitHub release not found for ");
                out.append(name.as_str());
                out.append(" v");
                out.append(version.as_str());
                out
            },
            PluginManagerError::WasmAssetNotFound { name, version } => {
                let mut out = String::from_str("WASM asset not found in release for ");
                out.append(name.as_str());
                out.append(" v");
                out.append(version.as_str());
                out
            },
            PluginManagerError::SaveFailed { path, reason } => {
                let mut out = String::from_str("failed to save plugin to ");
                out.append(path.as_str());
                out
            },
            PluginManagerError::RegistryRead(reason) => String::from_str(
                "failed to read registry file",
            ),
            PluginManagerError::RegistryWrite(reason) => String::from_str(
                "failed to write registry file",
            ),
            PluginManagerError::RegistryParse(reason) => String::from_str(
                "failed to parse registry file",
            ),
            PluginManagerError::RegistrySerialize(reason) => String::from_str(
                "failed to serialize registry",
            ),
            PluginManagerError::WasmLoad { name, reason } => {
                let mut out = String::from_str("failed to load WASM plugin: ");
                out.append(name.as_str());
                out
            },
            PluginManagerError::TypeMismatch { name, expected, actual } => {
                let mut out = String::from_str("plugin type mismatch for ");
                out.append(name.as_str());
                out.append(": expected ");
                out.append(expected.as_str());
                out.append(", got ");
                out.append(actual.as_str());
                out
            },
            PluginManagerError::InvalidPluginName { name } => {
                let mut out = String::from_str("invalid plugin name: ");
                out.append(name.as_str());
                out.append(
                    ". Must start with 'unduler-parser-', 'unduler-bumper-', 'unduler-formatter-', or 'unduler-hook-'",
                );
                out
            },
            PluginManagerError::Io(reason) => {
                let mut out = String::from_str("IO error: ");
                out.append(reason.as_str());
                out
            },
        }
    }
}

} // verus!
