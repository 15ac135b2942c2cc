//! Semantic versions: their text, their order, and the bump arithmetic.

use crate::bump::BumpType;
use crate::text::{decimal, has_prefix, str_eq, strip_prefix, u64_to_string};
use vstd::prelude::*;

verus! {

/// A semantic version: the triple `major.minor.patch`, with optional
/// pre-release and build metadata kept as text (empty where absent).
#[derive(Debug, Clone, PartialEq, Eq)]
pub struct Version {
    pub major: u64,
    pub minor: u64,
    pub patch: u64,
    pub pre: String,
    pub build: String,
}

/// The mathematical content of a [`Version`].
pub struct VersionView {
    pub major: nat,
    pub minor: nat,
    pub patch: nat,
    pub pre: Seq<char>,
    pub build: Seq<char>,
}

impl View for Version {
    type V = VersionView;

    open spec fn view(&self) -> VersionView {
        VersionView {
            major: self.major as nat,
            minor: self.minor as nat,
            patch: self.patch as nat,
            pre: self.pre@,
            build: self.build@,
        }
    }
}

/// The view of an optional version.
pub open spec fn opt_version(v: Option<Version>) -> Option<VersionView> {
    match v {
        Some(v) => Some(v@),
        None => None,
    }
}

/// The views of a list of optional versions.
pub open spec fn reading_views(list: Seq<Option<Version>>) -> Seq<Option<VersionView>> {
    list.map_values(|v: Option<Version>| opt_version(v))
}

/// The release `major.minor.patch`, without pre-release or build metadata.
pub open spec fn release(major: nat, minor: nat, patch: nat) -> VersionView {
    VersionView { major, minor, patch, pre: Seq::empty(), build: Seq::empty() }
}

/// The text of a version: `major.minor.patch`, then `-` and the pre-release
/// where there is one, then `+` and the build metadata where there is any.
pub open spec fn display(v: VersionView) -> Seq<char> {
    decimal(v.major) + seq!['.'] + decimal(v.minor) + seq!['.'] + decimal(v.patch) + (if v.pre.len()
        > 0 {
        seq!['-'] + v.pre
    } else {
        Seq::empty()
    }) + (if v.build.len() > 0 {
        seq!['+'] + v.build
    } else {
        Seq::empty()
    })
}

/// How one version stands to another in precedence.
#[derive(Debug, Clone, Copy, PartialEq, Eq, Structural)]
pub enum Precedence {
    Lower,
    Same,
    Higher,
}

/// The version that `semver` reads from `text`; `None` where it rejects the
/// text.
pub uninterp spec fn parsed_version(text: Seq<char>) -> Option<VersionView>;

/// How `semver` orders the versions it reads from two texts; `None` where it
/// rejects either text.
pub uninterp spec fn text_precedence(a: Seq<char>, b: Seq<char>) -> Option<Precedence>;

/// Why `semver` rejected a version text.
#[verifier::external_type_specification]
#[verifier::external_body]
pub struct ExSemverError(semver::Error);

/// Reads a version from text. Trusted: calls `semver::Version::parse` and
/// copies the five components of what it returns; the contract names that
/// result and says nothing more of it.
#[verifier::external_body]
fn parse_semver(text: &str) -> (r: Result<Version, semver::Error>)
    ensures
        match r {
            Ok(v) => parsed_version(text@) == Some(v@),
            Err(_) => parsed_version(text@) is None,
        },
{
    semver::Version::parse(text).map(
        |v|
            Version {
                major: v.major,
                minor: v.minor,
                patch: v.patch,
                pre: v.pre.as_str().to_string(),
                build: v.build.as_str().to_string(),
            },
    )
}

/// The message of a parse failure. Trusted: calls the `Display` impl of
/// `semver::Error`; nothing is promised of the wording.
#[verifier::external_body]
fn describe_semver_error(e: &semver::Error) -> String {
    e.to_string()
}

/// Orders two version texts. Trusted: reads both with
/// `semver::Version::parse` and compares the results with their `Ord` impl;
/// the contract names that result and says nothing more of it.
#[verifier::external_body]
fn order_texts(a: &str, b: &str) -> (r: Option<Precedence>)
    ensures
        r == text_precedence(a@, b@),
{
    match (semver::Version::parse(a), semver::Version::parse(b)) {
        (Ok(x), Ok(y)) => Some(
            match x.cmp(&y) {
                std::cmp::Ordering::Less => Precedence::Lower,
                std::cmp::Ordering::Equal => Precedence::Same,
                std::cmp::Ordering::Greater => Precedence::Higher,
            },
        ),
        _ => None,
    }
}

/// How `a` stands to `b`. The triple decides where it differs. Versions with
/// the same triple and the same pre-release and build text are the same.
/// Otherwise the pre-release and build metadata decide, by the order that
/// `semver` gives to the two texts; where it cannot read them, the versions
/// are not comparable.
pub open spec fn precedence(a: VersionView, b: VersionView) -> Option<Precedence> {
    if a.major != b.major {
        Some(if a.major < b.major { Precedence::Lower } else { Precedence::Higher })
    } else if a.minor != b.minor {
        Some(if a.minor < b.minor { Precedence::Lower } else { Precedence::Higher })
    } else if a.patch != b.patch {
        Some(if a.patch < b.patch { Precedence::Lower } else { Precedence::Higher })
    } else if a.pre == b.pre && a.build == b.build {
        Some(Precedence::Same)
    } else {
        text_precedence(display(a), display(b))
    }
}

/// `a` comes strictly before `b`.
pub open spec fn precedes(a: VersionView, b: VersionView) -> bool {
    precedence(a, b) == Some(Precedence::Lower)
}

/// A version text that could not be read.
#[derive(Debug, Clone, PartialEq, Eq)]
pub struct VersionParseError {
    /// What was wrong with the text.
    pub message: String,
}

impl VersionParseError {
    /// The message of the failure.
    pub fn to_string(&self) -> (r: String)
        ensures
            r@ == self.message@,
    {
        self.message.clone()
    }
}

impl Version {
    /// Creates the release `major.minor.patch`.
    pub fn new(major: u64, minor: u64, patch: u64) -> (r: Version)
        ensures
            r@ == release(major as nat, minor as nat, patch as nat),
    {
        Version { major, minor, patch, pre: String::new(), build: String::new() }
    }

    /// Reads a version from its text.
    pub fn parse(text: &str) -> (r: Result<Version, VersionParseError>)
        ensures
            match r {
                Ok(v) => parsed_version(text@) == Some(v@),
                Err(_) => parsed_version(text@) is None,
            },
    {
        match parse_semver(text) {
            Ok(v) => Ok(v),
            Err(e) => Err(VersionParseError { message: describe_semver_error(&e) }),
        }
    }

    /// The text of the version.
    pub fn to_string(&self) -> (r: String)
        ensures
            r@ == display(self@),
    {
        let mut out = u64_to_string(self.major);
        out.append(".");
        out.append(u64_to_string(self.minor).as_str());
        out.append(".");
        out.append(u64_to_string(self.patch).as_str());
        proof {
            reveal_strlit(".");
            assert("."@ == seq!['.']);
        }
        if self.pre.as_str().unicode_len() > 0 {
            out.append("-");
            out.append(self.pre.as_str());
            proof {
                reveal_strlit("-");
                assert("-"@ == seq!['-']);
            }
        }
        assert(out@ == decimal(self@.major) + seq!['.'] + decimal(self@.minor) + seq!['.']
            + decimal(self@.patch) + (if self@.pre.len() > 0 {
            seq!['-'] + self@.pre
        } else {
            Seq::empty()
        }));
        if self.build.as_str().unicode_len() > 0 {
            out.append("+");
            out.append(self.build.as_str());
            proof {
                reveal_strlit("+");
                assert("+"@ == seq!['+']);
            }
        }
        assert(out@ == display(self@));
        out
    }

    /// A copy of this version.
    pub fn duplicate(&self) -> (r: Version)
        ensures
            r@ == self@,
    {
        Version {
            major: self.major,
            minor: self.minor,
            patch: self.patch,
            pre: self.pre.clone(),
            build: self.build.clone(),
        }
    }

    /// How this version stands to `other`; `None` where the two are not
    /// comparable.
    pub fn compare(&self, other: &Version) -> (r: Option<Precedence>)
        ensures
            r == precedence(self@, other@),
    {
        if self.major != other.major {
            Some(if self.major < other.major { Precedence::Lower } else { Precedence::Higher })
        } else if self.minor != other.minor {
            Some(if self.minor < other.minor { Precedence::Lower } else { Precedence::Higher })
        } else if self.patch != other.patch {
            Some(if self.patch < other.patch { Precedence::Lower } else { Precedence::Higher })
        } else if str_eq(self.pre.as_str(), other.pre.as_str()) && str_eq(
            self.build.as_str(),
            other.build.as_str(),
        ) {
            Some(Precedence::Same)
        } else {
            order_texts(self.to_string().as_str(), other.to_string().as_str())
        }
    }

    /// Whether this version comes strictly after `other`.
    pub fn is_newer_than(&self, other: &Version) -> (r: bool)
        ensures
            r == precedes(other@, self@),
    {
        match other.compare(self) {
            Some(Precedence::Lower) => true,
            _ => false,
        }
    }

    /// Whether `semver` reads this version back from its own text.
    pub fn reads_back(&self) -> (r: bool)
        ensures
            r == (parsed_version(display(self@)) == Some(self@)),
    {
        match parse_semver(self.to_string().as_str()) {
            Ok(v) => v.major == self.major && v.minor == self.minor && v.patch == self.patch
                && str_eq(v.pre.as_str(), self.pre.as_str()) && str_eq(
                v.build.as_str(),
                self.build.as_str(),
            ),
            Err(_) => false,
        }
    }
}

/// The version that follows `v` under a bump of kind `bump`: the bumped
/// component goes up by one, the lower ones go to zero, and pre-release and
/// build metadata are cleared. `NoBump` leaves the version as it is.
pub open spec fn bumped(v: VersionView, bump: BumpType) -> VersionView {
    match bump {
        BumpType::Major => release(v.major + 1, 0, 0),
        BumpType::Minor => release(v.major, v.minor + 1, 0),
        BumpType::Patch => release(v.major, v.minor, v.patch + 1),
        BumpType::NoBump => v,
    }
}

/// The component that a bump of kind `bump` raises can still go up by one.
pub open spec fn can_bump(v: VersionView, bump: BumpType) -> bool {
    match bump {
        BumpType::Major => v.major < u64::MAX,
        BumpType::Minor => v.minor < u64::MAX,
        BumpType::Patch => v.patch < u64::MAX,
        BumpType::NoBump => true,
    }
}

/// The version a release gets. Without an earlier version the first release
/// is `0.1.0`, whatever the bump kind. Otherwise the bump applies to the
/// earlier version, and a bump of no kind counts as a patch.
pub open spec fn release_after(previous: Option<VersionView>, bump: BumpType) -> VersionView {
    match previous {
        None => release(0, 1, 0),
        Some(v) => bumped(
            v,
            if bump == BumpType::NoBump {
                BumpType::Patch
            } else {
                bump
            },
        ),
    }
}

/// The version a release is compared with: the earlier version, or `0.0.0`
/// where there is none.
pub open spec fn base_of(previous: Option<VersionView>) -> VersionView {
    match previous {
        None => release(0, 0, 0),
        Some(v) => v,
    }
}

/// A bump of any kind but `NoBump` gives a version that comes strictly after
/// the one it started from, and that has neither pre-release nor build
/// metadata.
pub proof fn lemma_bump_increases(v: VersionView, bump: BumpType)
    requires
        bump != BumpType::NoBump,
    ensures
        precedes(v, bumped(v, bump)),
        precedence(bumped(v, bump), v) == Some(Precedence::Higher),
        bumped(v, bump).pre.len() == 0,
        bumped(v, bump).build.len() == 0,
{
}

/// The first release is `0.1.0`: with no earlier version, every bump kind
/// gives it.
pub proof fn lemma_first_release(bump: BumpType)
    ensures
        release_after(None, bump) == release(0, 1, 0),
{
}

/// A release after an earlier version always comes strictly after it.
pub proof fn lemma_release_increases(v: VersionView, bump: BumpType)
    ensures
        precedes(v, release_after(Some(v), bump)),
        release_after(Some(v), bump).pre.len() == 0,
        release_after(Some(v), bump).build.len() == 0,
{
}

/// Manages version operations.
pub struct VersionManager;

impl VersionManager {
    /// Creates a new version manager.
    pub fn new() -> VersionManager {
        VersionManager
    }

    /// Bumps a version according to the bump type.
    pub fn bump(&self, version: &Version, bump_type: BumpType) -> (r: Version)
        requires
            can_bump(version@, bump_type),
        ensures
            r@ == bumped(version@, bump_type),
    {
        match bump_type {
            BumpType::Major => Version::new(version.major + 1, 0, 0),
            BumpType::Minor => Version::new(version.major, version.minor + 1, 0),
            BumpType::Patch => Version::new(version.major, version.minor, version.patch + 1),
            BumpType::NoBump => version.duplicate(),
        }
    }

    /// Bumps a version according to the bump type, or returns `None` where
    /// the component to raise is already the largest a version can hold.
    pub fn checked_bump(&self, version: &Version, bump_type: BumpType) -> (r: Option<Version>)
        ensures
            can_bump(version@, bump_type) ==> opt_version(r) == Some(bumped(version@, bump_type)),
            !can_bump(version@, bump_type) ==> r is None,
    {
        let fits = match bump_type {
            BumpType::Major => version.major < u64::MAX,
            BumpType::Minor => version.minor < u64::MAX,
            BumpType::Patch => version.patch < u64::MAX,
            BumpType::NoBump => true,
        };
        if fits {
            Some(self.bump(version, bump_type))
        } else {
            None
        }
    }

    /// Parses a version string.
    pub fn parse(&self, version: &str) -> (r: Result<Version, VersionParseError>)
        ensures
            match r {
                Ok(v) => parsed_version(version@) == Some(v@),
                Err(_) => parsed_version(version@) is None,
            },
    {
        Version::parse(version)
    }

    /// Extracts version from a tag string: what follows the prefix, read as
    /// a version. `None` where the tag lacks the prefix or the rest is no
    /// version.
    pub fn from_tag(&self, tag: &str, prefix: &str) -> (r: Option<Version>)
        ensures
            opt_version(r) == tag_version(tag@, prefix@),
    {
        match strip_prefix(tag, prefix) {
            Some(rest) => match Version::parse(rest.as_str()) {
                Ok(v) => Some(v),
                Err(_) => None,
            },
            None => None,
        }
    }

    /// The version for the next release, or `None` where the component to
    /// raise is already the largest a version can hold.
    pub fn checked_next_release(&self, previous: Option<&Version>, bump_type: BumpType) -> (r:
        Option<Version>)
        ensures
            match previous {
                None => opt_version(r) == Some(release_after(None, bump_type)),
                Some(v) => if can_bump(
                    v@,
                    if bump_type == BumpType::NoBump {
                        BumpType::Patch
                    } else {
                        bump_type
                    },
                ) {
                    opt_version(r) == Some(release_after(Some(v@), bump_type))
                } else {
                    r is None
                },
            },
    {
        match previous {
            None => Some(Version::new(0, 1, 0)),
            Some(v) => {
                let kind = match bump_type {
                    BumpType::NoBump => BumpType::Patch,
                    other => other,
                };
                self.checked_bump(v, kind)
            },
        }
    }

    /// The version for the next release (see [`release_after`]).
    pub fn next_release(&self, previous: Option<&Version>, bump_type: BumpType) -> (r: Version)
        requires
            previous matches Some(v) ==> can_bump(
                v@,
                if bump_type == BumpType::NoBump {
                    BumpType::Patch
                } else {
                    bump_type
                },
            ),
        ensures
            r@ == release_after(
                match previous {
                    Some(v) => Some(v@),
                    None => None,
                },
                bump_type,
            ),
    {
        match previous {
            None => Version::new(0, 1, 0),
            Some(v) => {
                let kind = match bump_type {
                    BumpType::NoBump => BumpType::Patch,
                    other => other,
                };
                self.bump(v, kind)
            },
        }
    }
}

impl Default for VersionManager {
    fn default() -> VersionManager {
        VersionManager::new()
    }
}

/// The version that a tag stands for under a prefix.
pub open spec fn tag_version(tag: Seq<char>, prefix: Seq<char>) -> Option<VersionView> {
    if has_prefix(tag, prefix) {
        parsed_version(tag.skip(prefix.len() as int))
    } else {
        None
    }
}

/// The tag of a version under a prefix: the prefix, then the version's text.
pub fn tag_name(prefix: &str, version: &Version) -> (r: String)
    ensures
        r@ == prefix@ + display(version@),
{
    let mut out = String::from_str(prefix);
    out.append(version.to_string().as_str());
    out
}

} // verus!
