//! The bundled commit parsers: Conventional Commits, and patterns defined
//! by the user.

use crate::commit::{
    first_line, set_entry, with_entry, ParsedCommit, ParsedCommitView, RawCommit, RawCommitView,
};
use crate::pattern::{
    capture_groups, capture_of, captured, check_pattern, describe_pattern_error, pattern_is_valid,
};
use crate::plugin::{CommitParser, Plugin, PACKAGE_VERSION};
use crate::text::{clone_opt, contains_text, lists, opt_text, pair_texts, str_eq, texts};
use vstd::prelude::*;

verus! {

/// The pattern of a Conventional Commits subject: a type, an optional scope
/// in parentheses, an optional `!` for a breaking change, then `: ` and the
/// message.
pub const CONVENTIONAL_PATTERN: &'static str =
    r"^(?P<type>\w+)(?:\((?P<scope>[^)]+)\))?(?P<breaking>!)?: (?P<message>.+)$";

/// Conventional Commits parser.
pub struct ConventionalParser;

/// The classification that the groups of a match give to a commit: `None`
/// where there is no match, or where the type or the message is missing.
pub open spec fn conventional_commit(
    raw: RawCommitView,
    groups: Option<Map<Seq<char>, Seq<char>>>,
) -> Option<ParsedCommitView> {
    match groups {
        None => None,
        Some(groups) => if groups.contains_key("type"@) && groups.contains_key("message"@) {
            Some(
                ParsedCommitView {
                    hash: raw.hash,
                    commit_type: groups["type"@],
                    scope: capture_of(groups, "scope"@),
                    message: groups["message"@],
                    breaking: groups.contains_key("breaking"@),
                    emoji: None,
                    metadata: Seq::empty(),
                    author: raw.author,
                    date: raw.date,
                },
            )
        } else {
            None
        },
    }
}

/// The names of the groups of the conventional pattern.
fn conventional_groups() -> (r: Vec<String>)
    ensures
        texts(r@) == seq!["type"@, "scope"@, "breaking"@, "message"@],
{
    let mut names: Vec<String> = Vec::new();
    names.push(String::from_str("type"));
    names.push(String::from_str("scope"));
    names.push(String::from_str("breaking"));
    names.push(String::from_str("message"));
    assert(texts(names@) == seq!["type"@, "scope"@, "breaking"@, "message"@]);
    names
}

/// Builds the classification of a commit from what the groups `type`,
/// `scope`, `breaking` and `message` captured, in that order. `None` where
/// there was no match, where the list does not hold four captures, or where
/// the type or the message is missing.
pub fn commit_from_captures(raw: &RawCommit, found: Option<Vec<Option<String>>>) -> (r: Option<
    ParsedCommit,
>)
    ensures
        match found {
            None => r is None,
            Some(list) => if list@.len() != 4 {
                r is None
            } else {
                match (list@[0], list@[3]) {
                    (Some(commit_type), Some(message)) => r is Some && r->0@ == (ParsedCommitView {
                        hash: raw@.hash,
                        commit_type: commit_type@,
                        scope: opt_text(list@[1]),
                        message: message@,
                        breaking: list@[2] is Some,
                        emoji: None,
                        metadata: Seq::empty(),
                        author: raw@.author,
                        date: raw@.date,
                    }),
                    _ => r is None,
                }
            },
        },
{
    let list = match found {
        Some(list) => list,
        None => {
            return None;
        },
    };
    if list.len() != 4 {
        return None;
    }
    let commit_type = match &list[0] {
        Some(t) => t.clone(),
        None => {
            return None;
        },
    };
    let message = match &list[3] {
        Some(m) => m.clone(),
        None => {
            return None;
        },
    };
    let parsed = ParsedCommit {
        hash: raw.hash.clone(),
        commit_type,
        scope: clone_opt(&list[1]),
        message,
        breaking: list[2].is_some(),
        emoji: None,
        metadata: Vec::new(),
        author: raw.author.clone(),
        date: raw.date,
    };
    assert(parsed@.metadata == Seq::<(Seq<char>, Seq<char>)>::empty());
    Some(parsed)
}

impl ConventionalParser {
    /// Creates a new conventional parser.
    pub fn new() -> ConventionalParser {
        ConventionalParser
    }
}

impl Default for ConventionalParser {
    fn default() -> ConventionalParser {
        ConventionalParser::new()
    }
}

impl Plugin for ConventionalParser {
    fn name(&self) -> (r: &'static str)
        ensures
            r@ == "conventional"@,
    {
        "conventional"
    }

    fn version(&self) -> (r: &'static str)
        ensures
            r@ == PACKAGE_VERSION@,
    {
        PACKAGE_VERSION
    }

    fn description(&self) -> (r: &'static str)
        ensures
            r@ == "Parses Conventional Commits format"@,
    {
        "Parses Conventional Commits format"
    }
}

impl CommitParser for ConventionalParser {
    open spec fn classification(&self, raw: RawCommitView) -> Option<ParsedCommitView> {
        conventional_commit(raw, captured(CONVENTIONAL_PATTERN@, first_line(raw.message)))
    }

    fn parse(&self, raw: &RawCommit) -> (r: Option<ParsedCommit>) {
        let subject = raw.subject();
        let names = conventional_groups();
        let found = capture_groups(CONVENTIONAL_PATTERN, subject.as_str(), &names);
        proof {
            assert(texts(names@).len() == 4);
            assert(names@.len() == 4);
            if found is Some {
                let list = found->0@;
                let groups = captured(CONVENTIONAL_PATTERN@, first_line(raw@.message))->0;
                assert(texts(names@)[0] == names@[0]@);
                assert(texts(names@)[1] == names@[1]@);
                assert(texts(names@)[2] == names@[2]@);
                assert(texts(names@)[3] == names@[3]@);
                assert(opt_text(list[0]) == capture_of(groups, "type"@));
                assert(opt_text(list[1]) == capture_of(groups, "scope"@));
                assert(opt_text(list[2]) == capture_of(groups, "breaking"@));
                assert(opt_text(list[3]) == capture_of(groups, "message"@));
            }
        }
        commit_from_captures(raw, found)
    }
}

/// Mapping of capture group names to commit fields.
#[derive(Debug, Clone, PartialEq, Eq)]
pub struct FieldMapping {
    /// Capture group for commit type.
    pub commit_type: String,
    /// Capture group for scope.
    pub scope: Option<String>,
    /// Capture group for message.
    pub message: String,
    /// Additional fields to capture into metadata, as pairs of metadata key
    /// and capture group.
    pub metadata: Vec<(String, String)>,
}

impl Default for FieldMapping {
    fn default() -> (r: FieldMapping)
        ensures
            r.commit_type@.len() == 0,
            r.scope is None,
            r.message@.len() == 0,
            r.metadata@.len() == 0,
    {
        FieldMapping {
            commit_type: String::new(),
            scope: None,
            message: String::new(),
            metadata: Vec::new(),
        }
    }
}

/// The capture group that holds the type where the mapping names none.
pub fn default_type() -> (r: String)
    ensures
        r@ == "type"@,
{
    String::from_str("type")
}

/// The capture group that holds the message where the mapping names none.
pub fn default_message() -> (r: String)
    ensures
        r@ == "message"@,
{
    String::from_str("message")
}

/// Configuration for the regex parser.
#[derive(Debug, Clone, PartialEq, Eq)]
pub struct RegexParserConfig {
    /// The regex pattern with named capture groups.
    pub pattern: String,
    /// Mapping of capture group names to commit fields.
    pub mapping: FieldMapping,
    /// Optional validation rules, as pairs of field and the values allowed
    /// for it.
    pub validation: Vec<(String, Vec<String>)>,
}

/// A pattern that is no regular expression.
#[derive(Debug, Clone, PartialEq, Eq)]
pub struct PatternError {
    /// What is wrong with the pattern.
    pub message: String,
}

impl PatternError {
    /// The message of the error.
    pub fn to_string(&self) -> (r: String)
        ensures
            r@ == self.message@,
    {
        self.message.clone()
    }
}

/// The validation rules as mathematical values.
pub open spec fn rule_views(rules: Seq<(String, Vec<String>)>) -> Seq<(Seq<char>, Seq<Seq<char>>)> {
    rules.map_values(|r: (String, Vec<String>)| (r.0@, texts(r.1@)))
}

/// Whether the rules allow `value` for `field`: the first rule for the
/// field decides; a field without a rule may hold anything.
pub open spec fn allowed_by(
    rules: Seq<(Seq<char>, Seq<Seq<char>>)>,
    field: Seq<char>,
    value: Seq<char>,
) -> bool
    decreases rules.len(),
{
    if rules.len() == 0 {
        true
    } else if rules[0].0 == field {
        lists(rules[0].1, value)
    } else {
        allowed_by(rules.skip(1), field, value)
    }
}

/// The metadata that the mapping `fields` gathers from captures: for each
/// pair of key and group, in order, the key is set to what the group
/// captured, if it captured anything.
pub open spec fn gathered(
    fields: Seq<(Seq<char>, Seq<char>)>,
    captures: spec_fn(Seq<char>) -> Option<Seq<char>>,
) -> Seq<(Seq<char>, Seq<char>)>
    decreases fields.len(),
{
    if fields.len() == 0 {
        Seq::empty()
    } else {
        let front = gathered(fields.drop_last(), captures);
        match captures(fields.last().1) {
            Some(value) => with_entry(front, fields.last().0, value),
            None => front,
        }
    }
}

/// The mathematical content of a [`RegexParserConfig`].
pub struct RegexParserConfigView {
    pub pattern: Seq<char>,
    pub type_group: Seq<char>,
    pub scope_group: Option<Seq<char>>,
    pub message_group: Seq<char>,
    pub metadata: Seq<(Seq<char>, Seq<char>)>,
    pub validation: Seq<(Seq<char>, Seq<Seq<char>>)>,
}

impl View for RegexParserConfig {
    type V = RegexParserConfigView;

    open spec fn view(&self) -> RegexParserConfigView {
        RegexParserConfigView {
            pattern: self.pattern@,
            type_group: self.mapping.commit_type@,
            scope_group: opt_text(self.mapping.scope),
            message_group: self.mapping.message@,
            metadata: pair_texts(self.mapping.metadata@),
            validation: rule_views(self.validation@),
        }
    }
}

/// The classification that a configuration gives to a commit, from what the
/// groups captured: `None` where there is no match, where the group of the
/// type captured nothing, or where the rules do not allow the type.
pub open spec fn mapped_commit(
    config: RegexParserConfigView,
    raw: RawCommitView,
    captures: Option<spec_fn(Seq<char>) -> Option<Seq<char>>>,
) -> Option<ParsedCommitView> {
    match captures {
        None => None,
        Some(captures) => match captures(config.type_group) {
            None => None,
            Some(commit_type) => if !allowed_by(config.validation, "type"@, commit_type) {
                None
            } else {
                Some(
                    ParsedCommitView {
                        hash: raw.hash,
                        commit_type,
                        scope: match config.scope_group {
                            Some(group) => captures(group),
                            None => None,
                        },
                        message: match captures(config.message_group) {
                            Some(message) => message,
                            None => Seq::empty(),
                        },
                        breaking: false,
                        emoji: None,
                        metadata: gathered(config.metadata, captures),
                        author: raw.author,
                        date: raw.date,
                    },
                )
            },
        },
    }
}

/// The function that looks a group up among the groups of a match.
pub open spec fn lookup_in(groups: Map<Seq<char>, Seq<char>>) -> spec_fn(Seq<char>) -> Option<
    Seq<char>,
> {
    |group: Seq<char>| capture_of(groups, group)
}

/// The texts of a list of optional strings.
pub open spec fn option_texts(list: Seq<Option<String>>) -> Seq<Option<Seq<char>>> {
    list.map_values(|o: Option<String>| opt_text(o))
}

/// The metadata gathered from the first `k` pairs of `fields`, where what
/// the group of the pair at position `j` captured stands at position
/// `3 + j` of `found`.
pub open spec fn placed_metadata(
    fields: Seq<(Seq<char>, Seq<char>)>,
    found: Seq<Option<Seq<char>>>,
    k: int,
) -> Seq<(Seq<char>, Seq<char>)>
    decreases k,
{
    if k <= 0 {
        Seq::empty()
    } else {
        let front = placed_metadata(fields, found, k - 1);
        match found[3 + k - 1] {
            Some(value) => with_entry(front, fields[k - 1].0, value),
            None => front,
        }
    }
}

/// The classification that a configuration gives to a commit, from what the
/// groups captured, listed by position: the group of the type, that of the
/// message, that of the scope, then those of the metadata.
pub open spec fn placed_commit(
    config: RegexParserConfigView,
    raw: RawCommitView,
    found: Seq<Option<Seq<char>>>,
) -> Option<ParsedCommitView> {
    match found[0] {
        None => None,
        Some(commit_type) => if !allowed_by(config.validation, "type"@, commit_type) {
            None
        } else {
            Some(
                ParsedCommitView {
                    hash: raw.hash,
                    commit_type,
                    scope: match config.scope_group {
                        Some(_) => found[2],
                        None => None,
                    },
                    message: match found[1] {
                        Some(message) => message,
                        None => Seq::empty(),
                    },
                    breaking: false,
                    emoji: None,
                    metadata: placed_metadata(config.metadata, found, config.metadata.len() as int),
                    author: raw.author,
                    date: raw.date,
                },
            )
        },
    }
}

/// Gathering by position and gathering by group name come to the same,
/// where each position holds what the group of its pair captured.
pub proof fn lemma_placed_metadata(
    fields: Seq<(Seq<char>, Seq<char>)>,
    found: Seq<Option<Seq<char>>>,
    captures: spec_fn(Seq<char>) -> Option<Seq<char>>,
    k: int,
)
    requires
        0 <= k <= fields.len(),
        found.len() == 3 + fields.len(),
        forall|j: int| 0 <= j < fields.len() ==> #[trigger] found[3 + j] == captures(fields[j].1),
    ensures
        placed_metadata(fields, found, k) == gathered(fields.take(k), captures),
    decreases k,
{
    if k > 0 {
        lemma_placed_metadata(fields, found, captures, k - 1);
        assert(fields.take(k).drop_last() == fields.take(k - 1));
        assert(fields.take(k).last() == fields[k - 1]);
        assert(found[3 + (k - 1)] == captures(fields[k - 1].1));
    }
}

/// Custom regex parser.
pub struct RegexParser {
    config: RegexParserConfig,
}

/// Whether the rules allow `value` for `field`.
pub fn is_allowed_value(rules: &Vec<(String, Vec<String>)>, field: &str, value: &str) -> (r: bool)
    ensures
        r == allowed_by(rule_views(rules@), field@, value@),
{
    let mut i: usize = 0;
    assert(rule_views(rules@).skip(0) == rule_views(rules@));
    while i < rules.len()
        invariant
            i <= rules.len(),
            allowed_by(rule_views(rules@), field@, value@) == allowed_by(
                rule_views(rules@).skip(i as int),
                field@,
                value@,
            ),
        decreases rules.len() - i,
    {
        let ghost rest = rule_views(rules@).skip(i as int);
        assert(rest[0] == rule_views(rules@)[i as int]);
        assert(rest.skip(1) == rule_views(rules@).skip(i + 1));
        if str_eq(rules[i].0.as_str(), field) {
            return contains_text(&rules[i].1, value);
        }
        i += 1;
    }
    true
}

impl RegexParser {
    /// The configuration of the parser.
    pub closed spec fn settings(&self) -> RegexParserConfigView {
        self.config@
    }

    /// Creates a new regex parser with the given configuration. Fails where
    /// the pattern is no regular expression.
    pub fn new(config: RegexParserConfig) -> (r: Result<RegexParser, PatternError>)
        ensures
            r is Ok <==> pattern_is_valid(config.pattern@),
            r matches Ok(parser) ==> parser.settings() == config@,
    {
        match check_pattern(config.pattern.as_str()) {
            Ok(()) => Ok(RegexParser { config }),
            Err(e) => Err(PatternError { message: describe_pattern_error(&e) }),
        }
    }

    /// Validates a captured value against validation rules.
    pub fn validate(&self, field: &str, value: &str) -> (r: bool)
        ensures
            r == allowed_by(self.settings().validation, field@, value@),
    {
        is_allowed_value(&self.config.validation, field, value)
    }

    /// The names of the groups to look up: the group of the type, that of
    /// the message, that of the scope (the group of the type again where the
    /// mapping names none), then the groups of the metadata.
    fn group_names(&self) -> (r: Vec<String>)
        ensures
            r@.len() == 3 + self.config.mapping.metadata@.len(),
            r@[0]@ == self.settings().type_group,
            r@[1]@ == self.settings().message_group,
            self.settings().scope_group matches Some(group) ==> r@[2]@ == group,
            forall|k: int|
                0 <= k < self.config.mapping.metadata@.len() ==> (#[trigger] r@[3 + k])@
                    == self.settings().metadata[k].1,
    {
        let mut names: Vec<String> = Vec::new();
        names.push(self.config.mapping.commit_type.clone());
        names.push(self.config.mapping.message.clone());
        match &self.config.mapping.scope {
            Some(group) => names.push(group.clone()),
            None => names.push(self.config.mapping.commit_type.clone()),
        }
        let mut k: usize = 0;
        while k < self.config.mapping.metadata.len()
            invariant
                k <= self.config.mapping.metadata.len(),
                names@.len() == 3 + k,
                names@[0]@ == self.settings().type_group,
                names@[1]@ == self.settings().message_group,
                self.settings().scope_group matches Some(group) ==> names@[2]@ == group,
                forall|j: int|
                    0 <= j < k ==> (#[trigger] names@[3 + j])@ == self.settings().metadata[j].1,
            decreases self.config.mapping.metadata.len() - k,
        {
            names.push(self.config.mapping.metadata[k].1.clone());
            k += 1;
        }
        names
    }

    /// Builds the classification of a commit from what the groups captured,
    /// given in this order: the group of the type, that of the message, that
    /// of the scope (anything where the mapping names none), then the groups
    /// of the metadata in the order of the mapping. `None` where the list
    /// does not hold one capture for each of them.
    pub fn commit_from_groups(&self, raw: &RawCommit, found: &Vec<Option<String>>) -> (r: Option<
        ParsedCommit,
    >)
        ensures
            found@.len() != 3 + self.settings().metadata.len() ==> r is None,
            found@.len() == 3 + self.settings().metadata.len() ==> match r {
                Some(parsed) => placed_commit(self.settings(), raw@, option_texts(found@))
                    == Some(parsed@),
                None => placed_commit(self.settings(), raw@, option_texts(found@)) is None,
            },
    {
        let ghost list = option_texts(found@);
        let wanted = self.config.mapping.metadata.len();
        if found.len() < 3 || found.len() - 3 != wanted {
            return None;
        }
        // Extract type
        let commit_type = match &found[0] {
            Some(t) => t.clone(),
            None => {
                return None;
            },
        };
        // Validate type
        if !self.validate("type", commit_type.as_str()) {
            return None;
        }
        // Extract scope
        let scope = match &self.config.mapping.scope {
            Some(_) => clone_opt(&found[2]),
            None => None,
        };
        // Extract message
        let message = match &found[1] {
            Some(m) => m.clone(),
            None => String::new(),
        };
        // Extract metadata
        let mut metadata: Vec<(String, String)> = Vec::new();
        let ghost fields = self.settings().metadata;
        let mut k: usize = 0;
        let total = found.len();
        assert(pair_texts(metadata@) == placed_metadata(fields, list, 0));
        while k < self.config.mapping.metadata.len()
            invariant
                k <= self.config.mapping.metadata.len(),
                total == 3 + self.config.mapping.metadata@.len(),
                total == found@.len(),
                list == option_texts(found@),
                fields == self.settings().metadata,
                fields.len() == self.config.mapping.metadata@.len(),
                pair_texts(metadata@) == placed_metadata(fields, list, k as int),
            decreases self.config.mapping.metadata.len() - k,
        {
            assert(list[3 + k] == opt_text(found@[3 + k]));
            match &found[3 + k] {
                Some(value) => {
                    set_entry(
                        &mut metadata,
                        self.config.mapping.metadata[k].0.as_str(),
                        value.as_str(),
                    );
                },
                None => {},
            }
            k += 1;
        }
        Some(
            ParsedCommit {
                hash: raw.hash.clone(),
                commit_type,
                scope,
                message,
                breaking: false,
                emoji: None,
                metadata,
                author: raw.author.clone(),
                date: raw.date,
            },
        )
    }
}

impl Plugin for RegexParser {
    fn name(&self) -> (r: &'static str)
        ensures
            r@ == "regex"@,
    {
        "regex"
    }

    fn version(&self) -> (r: &'static str)
        ensures
            r@ == PACKAGE_VERSION@,
    {
        PACKAGE_VERSION
    }

    fn description(&self) -> (r: &'static str)
        ensures
            r@ == "Parses commits using custom regex patterns"@,
    {
        "Parses commits using custom regex patterns"
    }
}

impl CommitParser for RegexParser {
    open spec fn classification(&self, raw: RawCommitView) -> Option<ParsedCommitView> {
        mapped_commit(
            self.settings(),
            raw,
            match captured(self.settings().pattern, first_line(raw.message)) {
                Some(groups) => Some(lookup_in(groups)),
                None => None,
            },
        )
    }

    fn parse(&self, raw: &RawCommit) -> (r: Option<ParsedCommit>) {
        let subject = raw.subject();
        let names = self.group_names();
        match capture_groups(self.config.pattern.as_str(), subject.as_str(), &names) {
            None => None,
            Some(found) => {
                proof {
                    let groups = captured(self.settings().pattern, first_line(raw@.message))->0;
                    let list = option_texts(found@);
                    let fields = self.settings().metadata;
                    assert(list[0] == capture_of(groups, names@[0]@));
                    assert(list[1] == capture_of(groups, names@[1]@));
                    assert(list[2] == capture_of(groups, names@[2]@));
                    assert forall|j: int| 0 <= j < fields.len() implies #[trigger] list[3 + j]
                        == lookup_in(groups)(fields[j].1) by {
                        assert(opt_text(found@[3 + j]) == capture_of(groups, names@[3 + j]@));
                    }
                    lemma_placed_metadata(fields, list, lookup_in(groups), fields.len() as int);
                    assert(fields.take(fields.len() as int) == fields);
                }
                self.commit_from_groups(raw, &found)
            },
        }
    }
}

} // verus!
