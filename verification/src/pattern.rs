//! Regular expressions, supplied by the `regex` crate.

use crate::text::opt_text;
use vstd::prelude::*;

verus! {

/// Whether `regex` accepts `pattern` as a regular expression.
pub uninterp spec fn pattern_is_valid(pattern: Seq<char>) -> bool;

/// What the named groups of `pattern` capture in the first match that
/// `regex` finds in `text`: each group that takes part in the match, with
/// the text it captured. `None` where there is no match, or where the
/// pattern is no regular expression.
pub uninterp spec fn captured(pattern: Seq<char>, text: Seq<char>) -> Option<
    Map<Seq<char>, Seq<char>>,
>;

/// Why `regex` rejected a pattern.
#[verifier::external_type_specification]
#[verifier::external_body]
pub struct ExRegexError(regex::Error);

/// What the group `group` captured.
pub open spec fn capture_of(groups: Map<Seq<char>, Seq<char>>, group: Seq<char>) -> Option<
    Seq<char>,
> {
    if groups.contains_key(group) {
        Some(groups[group])
    } else {
        None
    }
}

/// `found` holds, for each name in `names`, what the group of that name
/// captured.
pub open spec fn holds_captures(
    found: Seq<Option<String>>,
    names: Seq<String>,
    groups: Map<Seq<char>, Seq<char>>,
) -> bool {
    &&& found.len() == names.len()
    &&& forall|i: int|
        0 <= i < names.len() ==> opt_text(#[trigger] found[i]) == capture_of(groups, names[i]@)
}

/// Checks a pattern. Trusted: calls `regex::Regex::new`; the contract names
/// whether it accepts the pattern and says nothing more of it.
#[verifier::external_body]
pub(crate) fn check_pattern(pattern: &str) -> (r: Result<(), regex::Error>)
    ensures
        r is Ok <==> pattern_is_valid(pattern@),
{
    regex::Regex::new(pattern).map(|_| ())
}

/// The message of a rejected pattern. Trusted: calls the `Display` impl of
/// `regex::Error`; nothing is promised of the wording.
#[verifier::external_body]
pub(crate) fn describe_pattern_error(e: &regex::Error) -> String {
    e.to_string()
}

/// Matches a text against a pattern and returns what the groups named in
/// `names` captured. Trusted: calls `regex::Regex::new`, `Regex::captures`,
/// and `Captures::name` with `Match::as_str` for each name; the contract
/// names what comes back and says nothing more of it.
#[verifier::external_body]
pub(crate) fn capture_groups(pattern: &str, text: &str, names: &Vec<String>) -> (r: Option<
    Vec<Option<String>>,
>)
    ensures
        match r {
            Some(found) => captured(pattern@, text@) is Some && holds_captures(
                found@,
                names@,
                captured(pattern@, text@)->0,
            ),
            None => captured(pattern@, text@) is None,
        },
{
    let re = regex::Regex::new(pattern).ok()?;
    let caps = re.captures(text)?;
    Some(names.iter().map(|n| caps.name(n).map(|m| m.as_str().to_string())).collect())
}

} // verus!
