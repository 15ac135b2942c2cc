//! Keep a Changelog formatter plugin, and the merge of a new changelog entry
//! into an existing changelog.

use crate::clock::{calendar_date, format_date};
use crate::commit::{
    abbreviate_hash, commit_views, get_entry, leading, lookup, ParsedCommit, ParsedCommitView,
};
use crate::plugin::{
    ChangelogFormatter, FormatterConfig, FormatterConfigView, Plugin, Release, ReleaseView,
    PACKAGE_VERSION,
};
use crate::text::{
    chars_of, contains_literal, find_from, first_occurrence, lists, literal_texts, no_occurrence,
    opt_text, str_eq, substring,
};
use crate::version::display;
use vstd::prelude::*;

verus! {

/// Keep a Changelog formatter.
///
/// Formats changelog following the [Keep a Changelog](https://keepachangelog.com/) convention.
pub struct KeepAChangelogFormatter;

/// The commit types that have a section of their own, in the order of the
/// sections.
pub open spec fn section_types() -> Seq<Seq<char>> {
    seq![
        "breaking"@,
        "security"@,
        "feat"@,
        "fix"@,
        "perf"@,
        "refactor"@,
        "docs"@,
        "style"@,
        "test"@,
        "build"@,
        "ci"@,
        "deps"@,
        "chore"@,
        "revert"@,
    ]
}

/// The label under which commits of a type are listed by default.
pub open spec fn default_label_of(commit_type: Seq<char>) -> Seq<char> {
    if commit_type == "feat"@ {
        "Added"@
    } else if commit_type == "fix"@ {
        "Fixed"@
    } else if commit_type == "docs"@ {
        "Documentation"@
    } else if commit_type == "style"@ {
        "Styling"@
    } else if commit_type == "refactor"@ {
        "Changed"@
    } else if commit_type == "perf"@ {
        "Performance"@
    } else if commit_type == "test"@ {
        "Testing"@
    } else if commit_type == "build"@ || commit_type == "ci"@ {
        "Build"@
    } else if commit_type == "chore"@ {
        "Maintenance"@
    } else if commit_type == "revert"@ {
        "Reverted"@
    } else if commit_type == "deps"@ {
        "Dependencies"@
    } else if commit_type == "security"@ {
        "Security"@
    } else if commit_type == "breaking"@ {
        "Breaking Changes"@
    } else {
        commit_type
    }
}

/// The label under which commits of a type are listed: the one that the
/// configuration gives, or the default.
pub open spec fn label_of(commit_type: Seq<char>, config: FormatterConfigView) -> Seq<char> {
    match lookup(config.type_labels, commit_type) {
        Some(label) => label,
        None => default_label_of(commit_type),
    }
}

/// The line of a commit in the section of its type: the scope in bold where
/// there is one, the message, then the short hash and the author where the
/// configuration asks for them.
pub open spec fn detailed_line(commit: ParsedCommitView, config: FormatterConfigView) -> Seq<
    char,
> {
    "- "@ + (match commit.scope {
        Some(scope) => "**"@ + scope + ":** "@,
        None => Seq::empty(),
    }) + commit.message + (if config.include_hashes {
        " ("@ + leading(commit.hash, 7) + ")"@
    } else {
        Seq::empty()
    }) + (if config.include_authors {
        " - @"@ + commit.author
    } else {
        Seq::empty()
    }) + "\n"@
}

/// The line of a commit in the section of a type that has no fixed place:
/// the message alone.
pub open spec fn plain_line(commit: ParsedCommitView) -> Seq<char> {
    "- "@ + commit.message + "\n"@
}

/// The lines of the commits of one type, in the order of the commits.
pub open spec fn lines_of(
    commit_type: Seq<char>,
    commits: Seq<ParsedCommitView>,
    config: FormatterConfigView,
    detailed: bool,
) -> Seq<char>
    decreases commits.len(),
{
    if commits.len() == 0 {
        Seq::empty()
    } else {
        let front = lines_of(commit_type, commits.drop_last(), config, detailed);
        if commits.last().commit_type == commit_type {
            front + (if detailed {
                detailed_line(commits.last(), config)
            } else {
                plain_line(commits.last())
            })
        } else {
            front
        }
    }
}

/// Some commit is of the type.
pub open spec fn has_type(commits: Seq<ParsedCommitView>, commit_type: Seq<char>) -> bool {
    exists|i: int| 0 <= i < commits.len() && commits[i].commit_type == commit_type
}

/// The section of one type: its heading, the lines of its commits and an
/// empty line. Nothing where no commit is of the type.
pub open spec fn section_of(
    commit_type: Seq<char>,
    commits: Seq<ParsedCommitView>,
    config: FormatterConfigView,
    detailed: bool,
) -> Seq<char> {
    if has_type(commits, commit_type) {
        "### "@ + label_of(commit_type, config) + "\n\n"@ + lines_of(
            commit_type,
            commits,
            config,
            detailed,
        ) + "\n"@
    } else {
        Seq::empty()
    }
}

/// The sections of the types in `types`, in that order.
pub open spec fn sections_of(
    types: Seq<Seq<char>>,
    commits: Seq<ParsedCommitView>,
    config: FormatterConfigView,
    detailed: bool,
) -> Seq<char>
    decreases types.len(),
{
    if types.len() == 0 {
        Seq::empty()
    } else {
        sections_of(types.drop_last(), commits, config, detailed) + section_of(
            types.last(),
            commits,
            config,
            detailed,
        )
    }
}

/// The commits of one type, in the order of the commits.
pub open spec fn commits_of(commit_type: Seq<char>, commits: Seq<ParsedCommitView>) -> Seq<
    ParsedCommitView,
>
    decreases commits.len(),
{
    if commits.len() == 0 {
        Seq::empty()
    } else {
        let front = commits_of(commit_type, commits.drop_last());
        if commits.last().commit_type == commit_type {
            front.push(commits.last())
        } else {
            front
        }
    }
}

/// The types among the commits, each once, in the order in which they first
/// occur.
pub open spec fn types_of(commits: Seq<ParsedCommitView>) -> Seq<Seq<char>>
    decreases commits.len(),
{
    if commits.len() == 0 {
        Seq::empty()
    } else {
        let front = types_of(commits.drop_last());
        if lists(front, commits.last().commit_type) {
            front
        } else {
            front.push(commits.last().commit_type)
        }
    }
}

/// The commits of one type.
#[derive(Debug, Clone, PartialEq, Eq)]
pub struct CommitGroup {
    /// The type that the commits share.
    pub commit_type: String,
    /// The commits, in the order in which they were given.
    pub commits: Vec<ParsedCommit>,
}

/// The types of a list of groups.
pub open spec fn group_types(groups: Seq<CommitGroup>) -> Seq<Seq<char>> {
    groups.map_values(|g: CommitGroup| g.commit_type@)
}

/// `groups` are the commits by type: one group for each type among the
/// commits, in the order in which the types first occur, each with all the
/// commits of its type.
pub open spec fn groups_of(groups: Seq<CommitGroup>, commits: Seq<ParsedCommitView>) -> bool {
    &&& group_types(groups) == types_of(commits)
    &&& forall|i: int|
        0 <= i < groups.len() ==> commit_views((#[trigger] groups[i]).commits@) == commits_of(
            groups[i].commit_type@,
            commits,
        )
}

/// The types in `types` that have no section of their own, in the order of
/// `types`.
pub open spec fn unlisted(types: Seq<Seq<char>>) -> Seq<Seq<char>>
    decreases types.len(),
{
    if types.len() == 0 {
        Seq::empty()
    } else {
        let front = unlisted(types.drop_last());
        if lists(section_types(), types.last()) {
            front
        } else {
            front.push(types.last())
        }
    }
}

/// The types among the commits that have no section of their own, each
/// once, in the order in which they first occur.
pub open spec fn other_types(commits: Seq<ParsedCommitView>) -> Seq<Seq<char>> {
    unlisted(types_of(commits))
}

/// The lines of commits, in the order of the commits.
pub open spec fn all_lines(
    commits: Seq<ParsedCommitView>,
    config: FormatterConfigView,
    detailed: bool,
) -> Seq<char>
    decreases commits.len(),
{
    if commits.len() == 0 {
        Seq::empty()
    } else {
        all_lines(commits.drop_last(), config, detailed) + (if detailed {
            detailed_line(commits.last(), config)
        } else {
            plain_line(commits.last())
        })
    }
}

/// The lines of the commits of one type are the lines of the group of that
/// type.
pub proof fn lemma_lines_of_group(
    commit_type: Seq<char>,
    commits: Seq<ParsedCommitView>,
    config: FormatterConfigView,
    detailed: bool,
)
    ensures
        lines_of(commit_type, commits, config, detailed) == all_lines(
            commits_of(commit_type, commits),
            config,
            detailed,
        ),
    decreases commits.len(),
{
    if commits.len() > 0 {
        lemma_lines_of_group(commit_type, commits.drop_last(), config, detailed);
        if commits.last().commit_type == commit_type {
            let front = commits_of(commit_type, commits.drop_last());
            assert(front.push(commits.last()).drop_last() == front);
        }
    }
}

/// A type is among the types of the commits exactly when some commit is of
/// that type.
pub proof fn lemma_types_of(commits: Seq<ParsedCommitView>, commit_type: Seq<char>)
    ensures
        lists(types_of(commits), commit_type) <==> has_type(commits, commit_type),
    decreases commits.len(),
{
    if commits.len() > 0 {
        let rest = commits.drop_last();
        let front = types_of(rest);
        lemma_types_of(rest, commit_type);
        if lists(types_of(commits), commit_type) {
            let i = choose|i: int|
                0 <= i < types_of(commits).len() && types_of(commits)[i] == commit_type;
            if i < front.len() {
                assert(front[i] == commit_type);
                let k = choose|k: int| 0 <= k < rest.len() && rest[k].commit_type == commit_type;
                assert(commits[k].commit_type == commit_type);
            } else {
                assert(commits[commits.len() - 1].commit_type == commit_type);
            }
        }
        if has_type(commits, commit_type) {
            let k = choose|k: int| 0 <= k < commits.len() && commits[k].commit_type == commit_type;
            if k < rest.len() {
                assert(rest[k].commit_type == commit_type);
                let i = choose|i: int| 0 <= i < front.len() && front[i] == commit_type;
                assert(types_of(commits)[i] == commit_type);
            } else if lists(front, commit_type) {
            } else {
                assert(types_of(commits)[front.len() as int] == commit_type);
            }
        }
    }
}

/// The heading of a release: its version and the text of its date (nothing
/// where the date has no text).
pub open spec fn heading_of(release: ReleaseView, date: Option<Seq<char>>) -> Seq<char> {
    "## ["@ + display(release.version) + "] - "@ + (match date {
        Some(text) => text,
        None => Seq::empty(),
    }) + "\n\n"@
}

/// The comparison link of a release, where its previous version and the
/// address of its repository are known.
pub open spec fn link_of(release: ReleaseView) -> Seq<char> {
    match (release.previous_version, release.repository_url) {
        (Some(previous), Some(url)) => "["@ + display(release.version) + "]: "@ + url
            + "/compare/v"@ + display(previous) + "...v"@ + display(release.version) + "\n"@,
        _ => Seq::empty(),
    }
}

/// The changelog entry of a release, given the text of its date: the
/// heading; a section for each type that has a fixed place, in the order of
/// those places; a section for each other type, in the order of first
/// occurrence; and the comparison link.
pub open spec fn dated_entry(
    release: ReleaseView,
    config: FormatterConfigView,
    date: Option<Seq<char>>,
) -> Seq<char> {
    heading_of(release, date) + sections_of(section_types(), release.commits, config, true)
        + sections_of(other_types(release.commits), release.commits, config, false) + link_of(
        release,
    )
}

/// The changelog entry of a release, with its date as a calendar date.
pub open spec fn changelog_entry(release: ReleaseView, config: FormatterConfigView) -> Seq<char> {
    dated_entry(release, config, calendar_date(release.date))
}

impl KeepAChangelogFormatter {
    /// Creates a new formatter.
    pub fn new() -> KeepAChangelogFormatter {
        KeepAChangelogFormatter
    }

    /// Groups commits by type.
    pub fn group_by_type(commits: &[ParsedCommit]) -> (r: Vec<CommitGroup>)
        ensures
            groups_of(r@, commit_views(commits@)),
    {
        let ghost views = commit_views(commits@);
        let mut types: Vec<String> = Vec::new();
        let mut i: usize = 0;
        while i < commits.len()
            invariant
                i <= commits.len(),
                views == commit_views(commits@),
                crate::text::texts(types@) == types_of(views.take(i as int)),
            decreases commits.len() - i,
        {
            let ghost upto = views.take(i + 1);
            assert(upto.drop_last() == views.take(i as int));
            assert(upto.last() == commits@[i as int]@);
            let ghost before = crate::text::texts(types@);
            if !crate::text::contains_text(&types, commits[i].commit_type.as_str()) {
                types.push(commits[i].commit_type.clone());
                assert(crate::text::texts(types@) == before.push(commits@[i as int]@.commit_type));
            }
            i += 1;
        }
        assert(views.take(commits@.len() as int) == views);
        let mut groups: Vec<CommitGroup> = Vec::new();
        let mut j: usize = 0;
        while j < types.len()
            invariant
                j <= types.len(),
                views == commit_views(commits@),
                crate::text::texts(types@) == types_of(views),
                group_types(groups@) == types_of(views).take(j as int),
                forall|k: int|
                    0 <= k < groups.len() ==> commit_views((#[trigger] groups[k]).commits@)
                        == commits_of(groups[k].commit_type@, views),
            decreases types.len() - j,
        {
            let ghost before = group_types(groups@);
            let ghost all = types_of(views);
            assert(all[j as int] == types@[j as int]@);
            let group = CommitGroup {
                commit_type: types[j].clone(),
                commits: KeepAChangelogFormatter::of_type(commits, types[j].as_str()),
            };
            groups.push(group);
            assert(group_types(groups@) == before.push(all[j as int]));
            assert(all.take(j + 1) == all.take(j as int).push(all[j as int]));
            j += 1;
        }
        assert(types_of(views).take(types@.len() as int) == types_of(views));
        groups
    }

    /// The commits of one type, in the order in which they were given.
    fn of_type(commits: &[ParsedCommit], commit_type: &str) -> (r: Vec<ParsedCommit>)
        ensures
            commit_views(r@) == commits_of(commit_type@, commit_views(commits@)),
    {
        let ghost views = commit_views(commits@);
        let mut out: Vec<ParsedCommit> = Vec::new();
        let mut i: usize = 0;
        while i < commits.len()
            invariant
                i <= commits.len(),
                views == commit_views(commits@),
                commit_views(out@) == commits_of(commit_type@, views.take(i as int)),
            decreases commits.len() - i,
        {
            let ghost upto = views.take(i + 1);
            assert(upto.drop_last() == views.take(i as int));
            assert(upto.last() == commits@[i as int]@);
            let ghost before = commit_views(out@);
            if str_eq(commits[i].commit_type.as_str(), commit_type) {
                out.push(commits[i].duplicate());
                assert(commit_views(out@) == before.push(commits@[i as int]@));
            }
            i += 1;
        }
        assert(views.take(commits@.len() as int) == views);
        out
    }

    /// Returns the display label for a commit type.
    pub fn type_label(commit_type: &str, config: &FormatterConfig) -> (r: String)
        ensures
            r@ == label_of(commit_type@, config@),
    {
        match get_entry(&config.type_labels, commit_type) {
            Some(label) => label,
            None => KeepAChangelogFormatter::default_label(commit_type),
        }
    }

    /// Returns the default label for a commit type.
    pub fn default_label(commit_type: &str) -> (r: String)
        ensures
            r@ == default_label_of(commit_type@),
    {
        if str_eq(commit_type, "feat") {
            String::from_str("Added")
        } else if str_eq(commit_type, "fix") {
            String::from_str("Fixed")
        } else if str_eq(commit_type, "docs") {
            String::from_str("Documentation")
        } else if str_eq(commit_type, "style") {
            String::from_str("Styling")
        } else if str_eq(commit_type, "refactor") {
            String::from_str("Changed")
        } else if str_eq(commit_type, "perf") {
            String::from_str("Performance")
        } else if str_eq(commit_type, "test") {
            String::from_str("Testing")
        } else if str_eq(commit_type, "build") || str_eq(commit_type, "ci") {
            String::from_str("Build")
        } else if str_eq(commit_type, "chore") {
            String::from_str("Maintenance")
        } else if str_eq(commit_type, "revert") {
            String::from_str("Reverted")
        } else if str_eq(commit_type, "deps") {
            String::from_str("Dependencies")
        } else if str_eq(commit_type, "security") {
            String::from_str("Security")
        } else if str_eq(commit_type, "breaking") {
            String::from_str("Breaking Changes")
        } else {
            String::from_str(commit_type)
        }
    }

    /// Order for displaying sections.
    pub fn section_order() -> (r: Vec<&'static str>)
        ensures
            literal_texts(r@) == section_types(),
    {
        let mut order: Vec<&'static str> = Vec::new();
        order.push("breaking");
        order.push("security");
        order.push("feat");
        order.push("fix");
        order.push("perf");
        order.push("refactor");
        order.push("docs");
        order.push("style");
        order.push("test");
        order.push("build");
        order.push("ci");
        order.push("deps");
        order.push("chore");
        order.push("revert");
        assert(literal_texts(order@) == section_types());
        order
    }

    /// Formats a release into a changelog entry, given the text of its
    /// date.
    pub fn format_dated(release: &Release, config: &FormatterConfig, date: Option<String>) -> (r:
        String)
        ensures
            r@ == dated_entry(release@, config@, opt_text(date)),
    {
        let ghost views = commit_views(release.commits@);
        // Header
        let mut output = String::from_str("## [");
        output.append(release.version.to_string().as_str());
        output.append("] - ");
        match &date {
            Some(text) => {
                output.append(text.as_str());
            },
            None => {},
        }
        output.append("\n\n");
        assert(output@ == heading_of(release@, opt_text(date)));
        // Group commits
        let groups = KeepAChangelogFormatter::group_by_type(release.commits.as_slice());
        // Output in order
        let order = KeepAChangelogFormatter::section_order();
        let mut i: usize = 0;
        while i < order.len()
            invariant
                i <= order.len(),
                views == commit_views(release.commits@),
                groups_of(groups@, views),
                literal_texts(order@) == section_types(),
                output@ == heading_of(release@, opt_text(date)) + sections_of(
                    section_types().take(i as int),
                    views,
                    config@,
                    true,
                ),
            decreases order.len() - i,
        {
            let ghost upto = section_types().take(i + 1);
            assert(upto.drop_last() == section_types().take(i as int));
            assert(upto.last() == literal_texts(order@)[i as int]);
            proof {
                lemma_types_of(views, order@[i as int]@);
            }
            match KeepAChangelogFormatter::find_group(&groups, order[i]) {
                Some(k) => {
                    proof {
                        assert(group_types(groups@)[k as int] == order@[i as int]@);
                        lemma_lines_of_group(order@[i as int]@, views, config@, true);
                    }
                    output.append(
                        KeepAChangelogFormatter::section(&groups[k], config, true).as_str(),
                    );
                },
                None => {},
            }
            i += 1;
        }
        assert(section_types().take(order@.len() as int) == section_types());
        // Handle unknown types
        let ghost known = output@;
        let ghost types = types_of(views);
        let mut j: usize = 0;
        while j < groups.len()
            invariant
                j <= groups.len(),
                views == commit_views(release.commits@),
                groups_of(groups@, views),
                types == types_of(views),
                literal_texts(order@) == section_types(),
                output@ == known + sections_of(
                    unlisted(types.take(j as int)),
                    views,
                    config@,
                    false,
                ),
            decreases groups.len() - j,
        {
            let ghost upto = types.take(j + 1);
            let ghost before = unlisted(types.take(j as int));
            assert(upto.drop_last() == types.take(j as int));
            assert(upto.last() == groups@[j as int].commit_type@) by {
                assert(group_types(groups@)[j as int] == groups@[j as int].commit_type@);
            }
            if !contains_literal(&order, groups[j].commit_type.as_str()) {
                proof {
                    assert(before.push(upto.last()).drop_last() == before);
                    assert(types[j as int] == upto.last());
                    lemma_types_of(views, upto.last());
                    lemma_lines_of_group(upto.last(), views, config@, false);
                }
                output.append(
                    KeepAChangelogFormatter::section(&groups[j], config, false).as_str(),
                );
            }
            j += 1;
        }
        assert(types.take(groups@.len() as int) == types) by {
            assert(group_types(groups@).len() == groups@.len());
        }
        // Comparison link
        match (&release.previous_version, &release.repository_url) {
            (Some(previous), Some(url)) => {
                let text = release.version.to_string();
                output.append("[");
                output.append(text.as_str());
                output.append("]: ");
                output.append(url.as_str());
                output.append("/compare/v");
                output.append(previous.to_string().as_str());
                output.append("...v");
                output.append(text.as_str());
                output.append("\n");
            },
            _ => {},
        }
        output
    }

    /// The line of one commit.
    fn line(commit: &ParsedCommit, config: &FormatterConfig, detailed: bool) -> (r: String)
        ensures
            r@ == (if detailed {
                detailed_line(commit@, config@)
            } else {
                plain_line(commit@)
            }),
    {
        let mut out = String::from_str("- ");
        if detailed {
            match &commit.scope {
                Some(scope) => {
                    out.append("**");
                    out.append(scope.as_str());
                    out.append(":** ");
                },
                None => {},
            }
        }
        out.append(commit.message.as_str());
        if detailed && config.include_hashes {
            out.append(" (");
            out.append(abbreviate_hash(commit.hash.as_str()).as_str());
            out.append(")");
        }
        if detailed && config.include_authors {
            out.append(" - @");
            out.append(commit.author.as_str());
        }
        out.append("\n");
        out
    }

    /// The position of the group of a type.
    fn find_group(groups: &Vec<CommitGroup>, commit_type: &str) -> (r: Option<usize>)
        ensures
            match r {
                Some(k) => k < groups.len() && groups[k as int].commit_type@ == commit_type@,
                None => !lists(group_types(groups@), commit_type@),
            },
    {
        let mut i: usize = 0;
        while i < groups.len()
            invariant
                i <= groups.len(),
                forall|k: int| 0 <= k < i ==> group_types(groups@)[k] != commit_type@,
            decreases groups.len() - i,
        {
            assert(group_types(groups@)[i as int] == groups@[i as int].commit_type@);
            if str_eq(groups[i].commit_type.as_str(), commit_type) {
                return Some(i);
            }
            i += 1;
        }
        None
    }

    /// The section of one group: the heading of its type, the lines of its
    /// commits and an empty line.
    fn section(group: &CommitGroup, config: &FormatterConfig, detailed: bool) -> (r: String)
        ensures
            r@ == "### "@ + label_of(group.commit_type@, config@) + "\n\n"@ + all_lines(
                commit_views(group.commits@),
                config@,
                detailed,
            ) + "\n"@,
    {
        let ghost views = commit_views(group.commits@);
        let mut out = String::from_str("### ");
        out.append(
            KeepAChangelogFormatter::type_label(group.commit_type.as_str(), config).as_str(),
        );
        out.append("\n\n");
        let ghost head = out@;
        let mut i: usize = 0;
        while i < group.commits.len()
            invariant
                i <= group.commits.len(),
                views == commit_views(group.commits@),
                out@ == head + all_lines(views.take(i as int), config@, detailed),
            decreases group.commits.len() - i,
        {
            let ghost upto = views.take(i + 1);
            assert(upto.drop_last() == views.take(i as int));
            assert(upto.last() == group.commits@[i as int]@);
            out.append(
                KeepAChangelogFormatter::line(&group.commits[i], config, detailed).as_str(),
            );
            i += 1;
        }
        assert(views.take(group.commits@.len() as int) == views);
        out.append("\n");
        out
    }
}

impl Default for KeepAChangelogFormatter {
    fn default() -> KeepAChangelogFormatter {
        KeepAChangelogFormatter::new()
    }
}

impl Plugin for KeepAChangelogFormatter {
    fn name(&self) -> (r: &'static str)
        ensures
            r@ == "keepachangelog"@,
    {
        "keepachangelog"
    }

    fn version(&self) -> (r: &'static str)
        ensures
            r@ == PACKAGE_VERSION@,
    {
        PACKAGE_VERSION
    }

    fn description(&self) -> (r: &'static str)
        ensures
            r@ == "Formats changelog following Keep a Changelog convention"@,
    {
        "Formats changelog following Keep a Changelog convention"
    }
}

impl ChangelogFormatter for KeepAChangelogFormatter {
    open spec fn rendering(&self, release: ReleaseView, config: FormatterConfigView) -> Seq<char> {
        changelog_entry(release, config)
    }

    fn format(&self, release: &Release, config: &FormatterConfig) -> (r: String) {
        KeepAChangelogFormatter::format_dated(release, config, format_date(release.date))
    }
}

/// The text with which a new changelog begins.
pub open spec fn changelog_preamble() -> Seq<char> {
    "# Changelog\n\nAll notable changes to this project will be documented in this file.\n\nThe format is based on [Keep a Changelog](https://keepachangelog.com/en/1.1.0/),\nand this project adheres to [Semantic Versioning](https://semver.org/spec/v2.0.0.html).\n\n"@
}

/// The start of a release section in a changelog.
pub open spec fn section_mark() -> Seq<char> {
    "\n## "@
}

/// `merged` is the changelog `existing` with the entry `entry` added: a new
/// changelog begins with the preamble; in an existing one the entry goes
/// before the first release section, or to the end where there is none.
pub open spec fn merges_into(existing: Seq<char>, entry: Seq<char>, merged: Seq<char>) -> bool {
    if existing.len() == 0 {
        merged == changelog_preamble() + entry
    } else if no_occurrence(existing, section_mark(), 0) {
        merged == existing + "\n"@ + entry
    } else {
        exists|at: int|
            first_occurrence(existing, section_mark(), 0, at) && merged == existing.take(at + 1)
                + entry + existing.skip(at + 1)
    }
}

/// Merges a new changelog entry into the content of a changelog.
pub fn merge_changelog(existing: &str, entry: &str) -> (r: String)
    ensures
        merges_into(existing@, entry@, r@),
{
    let v = chars_of(existing);
    if v.len() == 0 {
        let mut out = String::from_str(
            "# Changelog\n\nAll notable changes to this project will be documented in this file.\n\nThe format is based on [Keep a Changelog](https://keepachangelog.com/en/1.1.0/),\nand this project adheres to [Semantic Versioning](https://semver.org/spec/v2.0.0.html).\n\n",
        );
        out.append(entry);
        return out;
    }
    let mark = chars_of("\n## ");
    match find_from(&v, &mark, 0) {
        Some(at) => {
            proof {
                reveal_strlit("\n## ");
                assert(mark@.len() == 4);
                assert(!no_occurrence(v@, mark@, 0));
            }
            let mut out = substring(&v, 0, at + 1);
            out.append(entry);
            out.append(substring(&v, at + 1, v.len()).as_str());
            assert(first_occurrence(v@, section_mark(), 0, at as int));
            out
        },
        None => {
            let mut out = String::from_str(existing);
            out.append("\n");
            out.append(entry);
            out
        },
    }
}

} // verus!
