//! The command line: its arguments, and the texts that the commands show.
//!
//! Parsing the arguments and printing are the caller's part; this module
//! holds the argument records and computes what the commands say.

use crate::bump::BumpType;
use crate::text::{joined_with, literal_texts, strip_prefix, texts};
use crate::version::{display, Version, VersionView};
use vstd::prelude::*;

verus! {

/// Parser type argument.
#[derive(Debug, Clone, Copy, PartialEq, Eq, Structural)]
pub enum ParserType {
    /// Standard Conventional Commits
    Conventional,
    /// Conventional Commits with Gitmoji
    ConventionalGitmoji,
    /// Custom regex pattern
    Regex,
}

impl Default for ParserType {
    fn default() -> (r: ParserType)
        ensures
            r == ParserType::Conventional,
    {
        ParserType::Conventional
    }
}

impl ParserType {
    /// The name of the parser in the configuration file.
    pub open spec fn config_name(self) -> Seq<char> {
        match self {
            ParserType::Conventional => "conventional"@,
            ParserType::ConventionalGitmoji => "conventional-gitmoji"@,
            ParserType::Regex => "regex"@,
        }
    }

    /// The name of the parser in the configuration file.
    pub fn as_config_name(self) -> (r: &'static str)
        ensures
            r@ == self.config_name(),
    {
        match self {
            ParserType::Conventional => "conventional",
            ParserType::ConventionalGitmoji => "conventional-gitmoji",
            ParserType::Regex => "regex",
        }
    }

    /// The plugin that provides the parser.
    pub open spec fn plugin_name(self) -> Seq<char> {
        match self {
            ParserType::Conventional => "unduler-parser-conventional"@,
            ParserType::ConventionalGitmoji => "unduler-parser-gitmoji"@,
            ParserType::Regex => "unduler-parser-regex"@,
        }
    }
}

/// Detected project type.
#[derive(Debug, Clone, Copy, PartialEq, Eq, Structural)]
pub enum ProjectType {
    Rust,
    Node,
    RustAndNode,
    Unknown,
}

impl ProjectType {
    /// The project type of a directory, from whether it holds a
    /// `Cargo.toml` and whether it holds a `package.json`.
    pub fn detect(has_cargo: bool, has_package_json: bool) -> (r: ProjectType)
        ensures
            r == (if has_cargo && has_package_json {
                ProjectType::RustAndNode
            } else if has_cargo {
                ProjectType::Rust
            } else if has_package_json {
                ProjectType::Node
            } else {
                ProjectType::Unknown
            }),
    {
        match (has_cargo, has_package_json) {
            (true, true) => ProjectType::RustAndNode,
            (true, false) => ProjectType::Rust,
            (false, true) => ProjectType::Node,
            (false, false) => ProjectType::Unknown,
        }
    }

    /// The version files of a project of this type.
    pub open spec fn files(self) -> Seq<Seq<char>> {
        match self {
            ProjectType::Rust => seq!["Cargo.toml"@],
            ProjectType::Node => seq!["package.json"@],
            ProjectType::RustAndNode => seq!["Cargo.toml"@, "package.json"@],
            ProjectType::Unknown => Seq::empty(),
        }
    }

    /// The hook plugins that suit a project of this type.
    pub open spec fn hook_plugins(self) -> Seq<Seq<char>> {
        match self {
            ProjectType::Rust => seq!["unduler-hook-cargo"@],
            ProjectType::Node => seq!["unduler-hook-npm"@],
            ProjectType::RustAndNode => seq!["unduler-hook-cargo"@, "unduler-hook-npm"@],
            ProjectType::Unknown => Seq::empty(),
        }
    }

    /// The name of the project type.
    pub open spec fn label(self) -> Seq<char> {
        match self {
            ProjectType::Rust => "Rust"@,
            ProjectType::Node => "Node.js"@,
            ProjectType::RustAndNode => "Rust + Node.js"@,
            ProjectType::Unknown => "Unknown"@,
        }
    }

    /// The version files of a project of this type.
    pub fn version_files(self) -> (r: Vec<&'static str>)
        ensures
            literal_texts(r@) == self.files(),
    {
        let mut files: Vec<&'static str> = Vec::new();
        match self {
            ProjectType::Rust => {
                files.push("Cargo.toml");
            },
            ProjectType::Node => {
                files.push("package.json");
            },
            ProjectType::RustAndNode => {
                files.push("Cargo.toml");
                files.push("package.json");
            },
            ProjectType::Unknown => {},
        }
        assert(literal_texts(files@) =~= self.files());
        files
    }

    /// The name of the project type.
    pub fn description(self) -> (r: &'static str)
        ensures
            r@ == self.label(),
    {
        match self {
            ProjectType::Rust => "Rust",
            ProjectType::Node => "Node.js",
            ProjectType::RustAndNode => "Rust + Node.js",
            ProjectType::Unknown => "Unknown",
        }
    }
}

/// Each text of `list` between double quotes.
pub open spec fn quoted(list: Seq<Seq<char>>) -> Seq<Seq<char>> {
    list.map_values(|t: Seq<char>| "\""@ + t + "\""@)
}

/// The part of a starter configuration that is special to a parser.
pub open spec fn parser_section(parser: ParserType) -> Seq<char> {
    match parser {
        ParserType::Conventional => Seq::empty(),
        ParserType::ConventionalGitmoji =>
            "\n[parser.conventional-gitmoji]\ninfer_type_from_emoji = true\nstrict_emoji = false\n"@,
        ParserType::Regex =>
            "\n[parser.regex]\n# pattern = \"^(?P<type>\\\\w+)(?:\\\\((?P<scope>\\\\w+)\\\\))?:\\\\s+(?P<message>.+)$\"\n\n[parser.regex.mapping]\n# type = \"type\"\n# scope = \"scope\"\n# message = \"message\"\n\n[parser.regex.validation]\n# type = [\"feat\", \"fix\", \"docs\", \"chore\", \"refactor\", \"test\", \"ci\"]\n"@,
    }
}

/// The line of a starter configuration that lists the version files;
/// nothing where there are none.
pub open spec fn files_line(files: Seq<Seq<char>>) -> Seq<char> {
    if files.len() == 0 {
        Seq::empty()
    } else {
        "files = ["@ + joined_with(quoted(files), ", "@) + "]\n"@
    }
}

/// The starter configuration for a parser and a project type.
pub open spec fn starter_config(parser: ParserType, project_type: ProjectType) -> Seq<char> {
    "[parser]\nname = \""@ + parser.config_name() + "\"\n"@ + parser_section(parser)
        + "\n[version]\ntag_prefix = \"v\"\n"@ + files_line(project_type.files())
        + "\n[changelog]\noutput = \"CHANGELOG.md\"\n"@
}

/// Generates the configuration file content.
pub fn generate_config(parser: ParserType, project_type: ProjectType) -> (r: String)
    ensures
        r@ == starter_config(parser, project_type),
{
    let version_files = project_type.version_files();
    let mut config = String::from_str("[parser]\nname = \"");
    config.append(parser.as_config_name());
    config.append("\"\n");
    match parser {
        ParserType::Conventional => {},
        ParserType::ConventionalGitmoji => {
            config.append(
                "\n[parser.conventional-gitmoji]\ninfer_type_from_emoji = true\nstrict_emoji = false\n",
            );
        },
        ParserType::Regex => {
            config.append(
                "\n[parser.regex]\n# pattern = \"^(?P<type>\\\\w+)(?:\\\\((?P<scope>\\\\w+)\\\\))?:\\\\s+(?P<message>.+)$\"\n\n[parser.regex.mapping]\n# type = \"type\"\n# scope = \"scope\"\n# message = \"message\"\n\n[parser.regex.validation]\n# type = [\"feat\", \"fix\", \"docs\", \"chore\", \"refactor\", \"test\", \"ci\"]\n",
            );
        },
    }
    config.append("\n[version]\ntag_prefix = \"v\"\n");
    if version_files.len() > 0 {
        let mut names: Vec<String> = Vec::new();
        let mut i: usize = 0;
        while i < version_files.len()
            invariant
                i <= version_files.len(),
                texts(names@) == quoted(literal_texts(version_files@)).take(i as int),
            decreases version_files.len() - i,
        {
            let ghost all = quoted(literal_texts(version_files@));
            let ghost before = texts(names@);
            let mut name = String::from_str("\"");
            name.append(version_files[i]);
            name.append("\"");
            assert(name@ == all[i as int]);
            names.push(name);
            assert(texts(names@) =~= before.push(all[i as int]));
            assert(all.take(i + 1) =~= all.take(i as int).push(all[i as int]));
            i += 1;
        }
        assert(quoted(literal_texts(version_files@)).take(version_files@.len() as int) =~= quoted(
            literal_texts(version_files@),
        ));
        config.append("files = [");
        config.append(crate::text::join_texts(&names, ", ").as_str());
        config.append("]\n");
    }
    config.append("\n[changelog]\noutput = \"CHANGELOG.md\"\n");
    config
}

/// The plugins to suggest for a parser and a project type: the plugin of the
/// parser, the bundled bumper and formatter, and the hooks that suit the
/// project.
pub open spec fn suggestions(parser: ParserType, project_type: ProjectType) -> Seq<Seq<char>> {
    seq![
        parser.plugin_name(),
        "unduler-bumper-semver"@,
        "unduler-formatter-keepachangelog"@,
    ] + project_type.hook_plugins()
}

/// Suggests plugins to install based on configuration.
pub fn suggest_plugins(parser: ParserType, project_type: ProjectType) -> (r: Vec<&'static str>)
    ensures
        literal_texts(r@) == suggestions(parser, project_type),
{
    let mut plugins: Vec<&'static str> = Vec::new();
    // Parser plugin based on selection
    let parser_plugin = match parser {
        ParserType::Conventional => "unduler-parser-conventional",
        ParserType::ConventionalGitmoji => "unduler-parser-gitmoji",
        ParserType::Regex => "unduler-parser-regex",
    };
    plugins.push(parser_plugin);
    // Always suggest these core plugins
    plugins.push("unduler-bumper-semver");
    plugins.push("unduler-formatter-keepachangelog");
    // Hook plugins based on project type
    match project_type {
        ProjectType::Rust => {
            plugins.push("unduler-hook-cargo");
        },
        ProjectType::Node => {
            plugins.push("unduler-hook-npm");
        },
        ProjectType::RustAndNode => {
            plugins.push("unduler-hook-cargo");
            plugins.push("unduler-hook-npm");
        },
        ProjectType::Unknown => {},
    }
    assert(literal_texts(plugins@) =~= suggestions(parser, project_type));
    plugins
}

/// A plugin name as the install command takes it: without `unduler-` in
/// front, where it has that.
pub open spec fn short_form(name: Seq<char>) -> Seq<char> {
    if crate::text::has_prefix(name, "unduler-"@) {
        name.skip("unduler-"@.len() as int)
    } else {
        name
    }
}

/// The short forms of a list of plugin names.
pub open spec fn short_forms(names: Seq<Seq<char>>) -> Seq<Seq<char>> {
    names.map_values(|n: Seq<char>| short_form(n))
}

/// The command that installs all of `plugins`.
pub fn install_command(plugins: &Vec<&'static str>) -> (r: String)
    ensures
        r@ == "unduler plugin install "@ + joined_with(
            short_forms(literal_texts(plugins@)),
            " "@,
        ),
{
    let mut names: Vec<String> = Vec::new();
    let mut i: usize = 0;
    while i < plugins.len()
        invariant
            i <= plugins.len(),
            texts(names@) == short_forms(literal_texts(plugins@)).take(i as int),
        decreases plugins.len() - i,
    {
        let name = match strip_prefix(plugins[i], "unduler-") {
            Some(short) => short,
            None => String::from_str(plugins[i]),
        };
        let ghost all = short_forms(literal_texts(plugins@));
        let ghost before = texts(names@);
        assert(name@ == all[i as int]);
        names.push(name);
        assert(texts(names@) =~= before.push(all[i as int]));
        assert(all.take(i + 1) =~= all.take(i as int).push(all[i as int]));
        i += 1;
    }
    assert(short_forms(literal_texts(plugins@)).take(plugins@.len() as int) =~= short_forms(
        literal_texts(plugins@),
    ));
    let mut out = String::from_str("unduler plugin install ");
    out.append(crate::text::join_texts(&names, " ").as_str());
    out
}

/// Bump type argument.
#[derive(Debug, Clone, Copy, PartialEq, Eq, Structural)]
pub enum BumpTypeArg {
    /// Major version bump (breaking changes)
    Major,
    /// Minor version bump (new features)
    Minor,
    /// Patch version bump (bug fixes)
    Patch,
}

impl BumpTypeArg {
    /// The bump kind that the argument stands for.
    pub open spec fn kind(self) -> BumpType {
        match self {
            BumpTypeArg::Major => BumpType::Major,
            BumpTypeArg::Minor => BumpType::Minor,
            BumpTypeArg::Patch => BumpType::Patch,
        }
    }

    /// The bump kind that the argument stands for.
    pub fn to_bump_type(self) -> (r: BumpType)
        ensures
            r == self.kind(),
            r != BumpType::NoBump,
    {
        match self {
            BumpTypeArg::Major => BumpType::Major,
            BumpTypeArg::Minor => BumpType::Minor,
            BumpTypeArg::Patch => BumpType::Patch,
        }
    }
}

/// Arguments for the init command.
#[derive(Debug, Clone, Copy, PartialEq, Eq)]
pub struct InitArgs {
    /// Force overwrite existing configuration
    pub force: bool,
    /// Parser to use
    pub parser: ParserType,
    /// Skip plugin installation suggestions
    pub no_plugins: bool,
}

/// Arguments for the bump command.
#[derive(Debug, Clone, Copy, PartialEq, Eq)]
pub struct BumpArgs {
    /// Perform a dry run without making changes
    pub dry_run: bool,
    /// Force a specific bump type (major, minor, patch)
    pub bump_type: Option<BumpTypeArg>,
}

/// Arguments for the changelog command.
#[derive(Debug, Clone, PartialEq, Eq)]
pub struct ChangelogArgs {
    /// Output file (default: from config or CHANGELOG.md)
    pub output: Option<String>,
    /// Generate changelog for unreleased changes only
    pub unreleased: bool,
    /// Print to stdout instead of writing to file
    pub dry_run: bool,
}

/// Arguments for the release command.
#[derive(Debug, Clone, Copy, PartialEq, Eq)]
pub struct ReleaseArgs {
    /// Perform a dry run without making changes
    pub dry_run: bool,
    /// Force a specific bump type (major, minor, patch)
    pub bump_type: Option<BumpTypeArg>,
    /// Skip changelog generation
    pub no_changelog: bool,
    /// Skip git tag creation
    pub no_tag: bool,
    /// Skip git commit
    pub no_commit: bool,
}

/// Arguments for the `plugin install` command.
#[derive(Debug, Clone, PartialEq, Eq)]
pub struct InstallArgs {
    /// Plugin name (e.g., "unduler-parser-conventional" or just "parser-conventional")
    pub name: String,
    /// Specific version to install (defaults to latest)
    pub version: Option<Version>,
}

/// Arguments for the `plugin remove` command.
#[derive(Debug, Clone, PartialEq, Eq)]
pub struct RemoveArgs {
    /// Plugin name
    pub name: String,
}

/// Arguments for the `plugin list` command.
#[derive(Debug, Clone, PartialEq, Eq)]
pub struct ListArgs {
    /// Filter by plugin type (parser, bumper, formatter, hook)
    pub plugin_type: Option<String>,
}

/// Arguments for the `plugin search` command.
#[derive(Debug, Clone, PartialEq, Eq)]
pub struct SearchArgs {
    /// Search query
    pub query: String,
}

/// Arguments for the `plugin update` command.
#[derive(Debug, Clone, PartialEq, Eq)]
pub struct UpdateArgs {
    /// Plugin name (updates all if not specified)
    pub name: Option<String>,
}

/// Arguments for the `plugin info` command.
#[derive(Debug, Clone, PartialEq, Eq)]
pub struct InfoArgs {
    /// Plugin name
    pub name: String,
}

/// Plugin management commands.
#[derive(Debug, Clone, PartialEq, Eq)]
pub enum PluginCommand {
    /// Install a plugin from crates.io
    Install(InstallArgs),
    /// Remove an installed plugin
    Remove(RemoveArgs),
    /// Update installed plugins
    Update(UpdateArgs),
    /// List installed plugins
    List(ListArgs),
    /// Search for plugins on crates.io
    Search(SearchArgs),
    /// Show information about a plugin
    Info(InfoArgs),
}

/// Arguments of the plugin command.
#[derive(Debug, Clone, PartialEq, Eq)]
pub struct PluginArgs {
    pub command: PluginCommand,
}

/// The commands of the program.
#[derive(Debug, Clone, PartialEq, Eq)]
pub enum Commands {
    /// Initialize a new unduler configuration
    Init(InitArgs),
    /// Bump the version based on commits
    Bump(BumpArgs),
    /// Generate changelog
    Changelog(ChangelogArgs),
    /// Run a full release (bump + changelog + tag)
    Release(ReleaseArgs),
    /// Manage plugins (install, remove, list, search)
    Plugin(PluginArgs),
}

/// Automate version management and changelog generation for Git-based projects.
#[derive(Debug, Clone, PartialEq, Eq)]
pub struct Cli {
    /// Enable verbose output
    pub verbose: bool,
    pub command: Commands,
}

/// The line that sums up a bump.
pub open spec fn bump_summary_of(
    current: VersionView,
    new: VersionView,
    dry_run: bool,
    updated: nat,
    errors: nat,
) -> Seq<char> {
    let change = display(current) + " -> "@ + display(new);
    if dry_run {
        "Dry run: would bump version "@ + change
    } else if errors == 0 {
        "Bumped version "@ + change + " ("@ + crate::text::decimal(updated)
            + " file(s) updated)"@
    } else {
        "Partially bumped version "@ + change + " ("@ + crate::text::decimal(updated)
            + " file(s) updated, "@ + crate::text::decimal(errors) + " error(s))"@
    }
}

/// The line that sums up a bump: what was bumped, and how many files were
/// updated or failed.
pub fn bump_summary(current: &Version, new: &Version, dry_run: bool, updated: u64, errors: u64)
    -> (r: String)
    ensures
        r@ == bump_summary_of(current@, new@, dry_run, updated as nat, errors as nat),
{
    let mut change = current.to_string();
    change.append(" -> ");
    change.append(new.to_string().as_str());
    if dry_run {
        let mut out = String::from_str("Dry run: would bump version ");
        out.append(change.as_str());
        out
    } else if errors == 0 {
        let mut out = String::from_str("Bumped version ");
        out.append(change.as_str());
        out.append(" (");
        out.append(crate::text::u64_to_string(updated).as_str());
        out.append(" file(s) updated)");
        out
    } else {
        let mut out = String::from_str("Partially bumped version ");
        out.append(change.as_str());
        out.append(" (");
        out.append(crate::text::u64_to_string(updated).as_str());
        out.append(" file(s) updated, ");
        out.append(crate::text::u64_to_string(errors).as_str());
        out.append(" error(s))");
        out
    }
}

} // verus!
