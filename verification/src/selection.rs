//! The choice of the commit parser from the configuration.

use crate::commit::{get_entry, lookup, ParsedCommit, ParsedCommitView, RawCommit, RawCommitView};
use crate::config::Config;
use crate::gitmoji::{ConventionalGitmojiParser, GitmojiParserConfig};
use crate::parsers::{
    rule_views, ConventionalParser, FieldMapping, RegexParser, RegexParserConfig,
    RegexParserConfigView,
};
use crate::pattern::pattern_is_valid;
use crate::plugin::{CommitParser, Plugin};
use crate::text::{clone_texts, pair_texts, str_eq};
use vstd::prelude::*;

verus! {

/// A commit parser chosen by the configuration.
pub enum ConfiguredParser {
    Conventional(ConventionalParser),
    Gitmoji(ConventionalGitmojiParser),
    Regex(RegexParser),
}

impl Plugin for ConfiguredParser {
    fn name(&self) -> (r: &'static str)
        ensures
            r@ == (match self {
                ConfiguredParser::Conventional(_) => "conventional"@,
                ConfiguredParser::Gitmoji(_) => "gitmoji"@,
                ConfiguredParser::Regex(_) => "regex"@,
            }),
    {
        match self {
            ConfiguredParser::Conventional(p) => p.name(),
            ConfiguredParser::Gitmoji(p) => p.name(),
            ConfiguredParser::Regex(p) => p.name(),
        }
    }

    fn version(&self) -> (r: &'static str)
        ensures
            r@ == crate::plugin::PACKAGE_VERSION@,
    {
        match self {
            ConfiguredParser::Conventional(p) => p.version(),
            ConfiguredParser::Gitmoji(p) => p.version(),
            ConfiguredParser::Regex(p) => p.version(),
        }
    }

    fn description(&self) -> (r: &'static str)
        ensures
            r@ == (match self {
                ConfiguredParser::Conventional(_) => "Parses Conventional Commits format"@,
                ConfiguredParser::Gitmoji(_) =>
                    "Parses Conventional Commits with Gitmoji prefix (emoji or :code: format)"@,
                ConfiguredParser::Regex(_) => "Parses commits using custom regex patterns"@,
            }),
    {
        match self {
            ConfiguredParser::Conventional(p) => p.description(),
            ConfiguredParser::Gitmoji(p) => p.description(),
            ConfiguredParser::Regex(p) => p.description(),
        }
    }
}

impl CommitParser for ConfiguredParser {
    open spec fn classification(&self, raw: RawCommitView) -> Option<ParsedCommitView> {
        match self {
            ConfiguredParser::Conventional(p) => p.classification(raw),
            ConfiguredParser::Gitmoji(p) => p.classification(raw),
            ConfiguredParser::Regex(p) => p.classification(raw),
        }
    }

    fn parse(&self, raw: &RawCommit) -> (r: Option<ParsedCommit>) {
        match self {
            ConfiguredParser::Conventional(p) => p.parse(raw),
            ConfiguredParser::Gitmoji(p) => p.parse(raw),
            ConfiguredParser::Regex(p) => p.parse(raw),
        }
    }
}

/// Whether a field of the mapping is one of the three that a commit always
/// has.
pub open spec fn is_core_field(field: Seq<char>) -> bool {
    field == "type"@ || field == "scope"@ || field == "message"@
}

/// The pairs of the mapping that go to the metadata: those of the fields
/// other than `type`, `scope` and `message`, in order.
pub open spec fn metadata_fields(mapping: Seq<(Seq<char>, Seq<char>)>) -> Seq<
    (Seq<char>, Seq<char>),
>
    decreases mapping.len(),
{
    if mapping.len() == 0 {
        Seq::empty()
    } else {
        let front = metadata_fields(mapping.drop_last());
        if is_core_field(mapping.last().0) {
            front
        } else {
            front.push(mapping.last())
        }
    }
}

/// The settings of the regex parser that a configuration asks for, given
/// its pattern: the groups of type and message are `type` and `message`
/// unless the mapping names others.
pub open spec fn regex_settings(config: Config, pattern: Seq<char>) -> RegexParserConfigView {
    let mapping = pair_texts(config.parser.regex.mapping@);
    RegexParserConfigView {
        pattern,
        type_group: match lookup(mapping, "type"@) {
            Some(group) => group,
            None => "type"@,
        },
        scope_group: lookup(mapping, "scope"@),
        message_group: match lookup(mapping, "message"@) {
            Some(group) => group,
            None => "message"@,
        },
        metadata: metadata_fields(mapping),
        validation: rule_views(config.parser.regex.validation@),
    }
}

/// Whether a configuration asks for the gitmoji parser.
pub open spec fn wants_gitmoji(config: Config) -> bool {
    config.parser.name@ == "gitmoji"@ || config.parser.name@ == "conventional-gitmoji"@
}

/// Whether a configuration asks for the regex parser and names a pattern
/// that is a regular expression.
pub open spec fn wants_regex(config: Config) -> bool {
    &&& !wants_gitmoji(config)
    &&& config.parser.name@ == "regex"@
    &&& config.parser.regex.pattern matches Some(pattern)
    &&& pattern_is_valid(pattern@)
}

/// A copy of the validation rules.
fn clone_rules(rules: &Vec<(String, Vec<String>)>) -> (r: Vec<(String, Vec<String>)>)
    ensures
        rule_views(r@) == rule_views(rules@),
{
    let mut out: Vec<(String, Vec<String>)> = Vec::new();
    let mut i: usize = 0;
    while i < rules.len()
        invariant
            i <= rules.len(),
            rule_views(out@) == rule_views(rules@).take(i as int),
        decreases rules.len() - i,
    {
        let ghost before = rule_views(out@);
        out.push((rules[i].0.clone(), clone_texts(&rules[i].1)));
        assert(rule_views(out@) =~= before.push(rule_views(rules@)[i as int]));
        assert(rule_views(rules@).take(i + 1) =~= rule_views(rules@).take(i as int).push(
            rule_views(rules@)[i as int],
        ));
        i += 1;
    }
    assert(rule_views(rules@).take(rules@.len() as int) =~= rule_views(rules@));
    out
}

/// Creates the gitmoji parser that a configuration asks for.
pub fn create_gitmoji_parser(config: &Config) -> (r: ConventionalGitmojiParser)
    ensures
        r.settings() == (GitmojiParserConfig {
            infer_type_from_emoji: config.parser.conventional_gitmoji.infer_type_from_emoji,
            strict_emoji: config.parser.conventional_gitmoji.strict_emoji,
        }),
{
    let parser_config = GitmojiParserConfig {
        infer_type_from_emoji: config.parser.conventional_gitmoji.infer_type_from_emoji,
        strict_emoji: config.parser.conventional_gitmoji.strict_emoji,
    };
    ConventionalGitmojiParser::with_config(parser_config)
}

/// The settings of the regex parser that a configuration asks for. `None`
/// where the configuration names no pattern.
pub fn regex_parser_config(config: &Config) -> (r: Option<RegexParserConfig>)
    ensures
        match config.parser.regex.pattern {
            None => r is None,
            Some(pattern) => r is Some && r->0@ == regex_settings(*config, pattern@),
        },
{
    let pattern = match &config.parser.regex.pattern {
        Some(pattern) => pattern,
        None => {
            return None;
        },
    };
    let source = &config.parser.regex.mapping;
    let mut metadata: Vec<(String, String)> = Vec::new();
    let mut i: usize = 0;
    while i < source.len()
        invariant
            i <= source.len(),
            pair_texts(metadata@) == metadata_fields(pair_texts(source@).take(i as int)),
        decreases source.len() - i,
    {
        let ghost upto = pair_texts(source@).take(i + 1);
        assert(upto.drop_last() =~= pair_texts(source@).take(i as int));
        assert(upto.last() == pair_texts(source@)[i as int]);
        let ghost before = pair_texts(metadata@);
        let field = source[i].0.as_str();
        if !(str_eq(field, "type") || str_eq(field, "scope") || str_eq(field, "message")) {
            metadata.push((source[i].0.clone(), source[i].1.clone()));
            assert(pair_texts(metadata@) =~= before.push(pair_texts(source@)[i as int]));
        }
        i += 1;
    }
    assert(pair_texts(source@).take(source@.len() as int) =~= pair_texts(source@));
    let mapping = FieldMapping {
        commit_type: match get_entry(source, "type") {
            Some(group) => group,
            None => String::from_str("type"),
        },
        scope: get_entry(source, "scope"),
        message: match get_entry(source, "message") {
            Some(group) => group,
            None => String::from_str("message"),
        },
        metadata,
    };
    let parser_config = RegexParserConfig {
        pattern: pattern.clone(),
        mapping,
        validation: clone_rules(&config.parser.regex.validation),
    };
    Some(parser_config)
}

/// Creates the regex parser that a configuration asks for. `None` where the
/// configuration names no pattern, or one that is no regular expression;
/// the conventional parser is used then.
pub fn create_regex_parser(config: &Config) -> (r: Option<RegexParser>)
    ensures
        match config.parser.regex.pattern {
            None => r is None,
            Some(pattern) => if pattern_is_valid(pattern@) {
                r is Some && r->0.settings() == regex_settings(*config, pattern@)
            } else {
                r is None
            },
        },
{
    match regex_parser_config(config) {
        Some(parser_config) => match RegexParser::new(parser_config) {
            Ok(parser) => Some(parser),
            Err(_) => None,
        },
        None => None,
    }
}

/// Creates the appropriate parser based on configuration: the gitmoji
/// parser for the names `gitmoji` and `conventional-gitmoji`, the regex
/// parser for the name `regex` where a pattern that is a regular expression
/// is configured, and the conventional parser in every other case.
pub fn create_parser(config: &Config) -> (r: ConfiguredParser)
    ensures
        wants_gitmoji(*config) ==> r is Gitmoji && r->Gitmoji_0.settings() == (GitmojiParserConfig {
            infer_type_from_emoji: config.parser.conventional_gitmoji.infer_type_from_emoji,
            strict_emoji: config.parser.conventional_gitmoji.strict_emoji,
        }),
        wants_regex(*config) ==> r is Regex && r->Regex_0.settings() == regex_settings(
            *config,
            config.parser.regex.pattern->0@,
        ),
        !wants_gitmoji(*config) && !wants_regex(*config) ==> r is Conventional,
{
    let name = config.parser.name.as_str();
    if str_eq(name, "gitmoji") || str_eq(name, "conventional-gitmoji") {
        ConfiguredParser::Gitmoji(create_gitmoji_parser(config))
    } else if str_eq(name, "regex") {
        match create_regex_parser(config) {
            Some(parser) => ConfiguredParser::Regex(parser),
            None => ConfiguredParser::Conventional(ConventionalParser::new()),
        }
    } else {
        ConfiguredParser::Conventional(ConventionalParser::new())
    }
}

} // verus!
