//! Bump kinds and the strategy that derives one from classified commits.

use crate::commit::{commit_views, ParsedCommit, ParsedCommitView};
use crate::plugin::{Plugin, PACKAGE_VERSION};
use crate::text::{contains_text, lists, texts};
use vstd::prelude::*;

verus! {

/// Version bump type.
#[derive(Debug, Clone, Copy, PartialEq, Eq, Hash, Structural)]
pub enum BumpType {
    /// Major version bump (breaking changes).
    Major,
    /// Minor version bump (new features).
    Minor,
    /// Patch version bump (bug fixes).
    Patch,
    /// No version bump needed.
    NoBump,
}

impl BumpType {
    /// Position in the total order `NoBump < Patch < Minor < Major`.
    pub open spec fn rank(self) -> nat {
        match self {
            BumpType::Major => 3,
            BumpType::Minor => 2,
            BumpType::Patch => 1,
            BumpType::NoBump => 0,
        }
    }

    /// The greater of two bump kinds.
    pub open spec fn spec_max(self, other: BumpType) -> BumpType {
        if self.rank() > other.rank() {
            self
        } else {
            other
        }
    }

    /// Returns true if this bump type is greater than another.
    pub fn is_greater_than(self, other: BumpType) -> (r: bool)
        ensures
            r == (self.rank() > other.rank()),
    {
        match (self, other) {
            (BumpType::Major, BumpType::Minor) => true,
            (BumpType::Major, BumpType::Patch) => true,
            (BumpType::Major, BumpType::NoBump) => true,
            (BumpType::Minor, BumpType::Patch) => true,
            (BumpType::Minor, BumpType::NoBump) => true,
            (BumpType::Patch, BumpType::NoBump) => true,
            _ => false,
        }
    }

    /// The lower-case name of the bump kind.
    pub open spec fn label(self) -> Seq<char> {
        match self {
            BumpType::Major => "major"@,
            BumpType::Minor => "minor"@,
            BumpType::Patch => "patch"@,
            BumpType::NoBump => "none"@,
        }
    }

    /// The lower-case name of the bump kind, as shown to users.
    pub fn to_string(&self) -> (r: String)
        ensures
            r@ == self.label(),
    {
        match self {
            BumpType::Major => String::from_str("major"),
            BumpType::Minor => String::from_str("minor"),
            BumpType::Patch => String::from_str("patch"),
            BumpType::NoBump => String::from_str("none"),
        }
    }

    /// Returns the maximum of two bump types.
    pub fn max(self, other: BumpType) -> (r: BumpType)
        ensures
            r == self.spec_max(other),
    {
        if self.is_greater_than(other) {
            self
        } else {
            other
        }
    }
}

/// The bump kinds form a total order by rank, `is_greater_than` is the
/// strict order, and `max` gives the greater of two: it does not depend on
/// the order of its arguments or on how three of them are grouped, and it
/// bounds both arguments.
pub proof fn lemma_bump_order(a: BumpType, b: BumpType, c: BumpType)
    ensures
        a.rank() == b.rank() <==> a == b,
        a.spec_max(b) == b.spec_max(a),
        a.spec_max(b).spec_max(c) == a.spec_max(b.spec_max(c)),
        a.spec_max(a) == a,
        a.spec_max(BumpType::NoBump) == a,
        a.spec_max(BumpType::Major) == BumpType::Major,
        a.rank() <= a.spec_max(b).rank(),
        b.rank() <= a.spec_max(b).rank(),
        a.spec_max(b) == a || a.spec_max(b) == b,
{
}

/// What one commit contributes to the bump decision: a breaking change asks
/// for a major bump, a type listed in `minor_types` for a minor one, a type
/// listed in `patch_types` for a patch, anything else for nothing.
pub open spec fn contribution(
    commit: ParsedCommitView,
    minor_types: Seq<Seq<char>>,
    patch_types: Seq<Seq<char>>,
) -> BumpType {
    if commit.breaking {
        BumpType::Major
    } else if lists(minor_types, commit.commit_type) {
        BumpType::Minor
    } else if lists(patch_types, commit.commit_type) {
        BumpType::Patch
    } else {
        BumpType::NoBump
    }
}

/// With the sets that the bumper starts with, a breaking change contributes
/// a major bump, `feat` a minor one, `fix` and `perf` a patch, and anything
/// else nothing.
pub proof fn lemma_default_contribution(commit: ParsedCommitView)
    ensures
        contribution(commit, seq!["feat"@], seq!["fix"@, "perf"@]) == (if commit.breaking {
            BumpType::Major
        } else if commit.commit_type == "feat"@ {
            BumpType::Minor
        } else if commit.commit_type == "fix"@ || commit.commit_type == "perf"@ {
            BumpType::Patch
        } else {
            BumpType::NoBump
        }),
{
    let minor = seq!["feat"@];
    let patch = seq!["fix"@, "perf"@];
    let t = commit.commit_type;
    assert(lists(minor, t) <==> t == "feat"@) by {
        if t == "feat"@ {
            assert(minor[0] == t);
        }
    }
    assert(lists(patch, t) <==> (t == "fix"@ || t == "perf"@)) by {
        if t == "fix"@ {
            assert(patch[0] == t);
        }
        if t == "perf"@ {
            assert(patch[1] == t);
        }
    }
}

/// The greatest contribution among `commits`; `NoBump` for an empty list.
pub open spec fn greatest_contribution(
    commits: Seq<ParsedCommitView>,
    minor_types: Seq<Seq<char>>,
    patch_types: Seq<Seq<char>>,
) -> BumpType
    decreases commits.len(),
{
    if commits.len() == 0 {
        BumpType::NoBump
    } else {
        greatest_contribution(commits.drop_last(), minor_types, patch_types).spec_max(
            contribution(commits.last(), minor_types, patch_types),
        )
    }
}

/// Some commit of the list is a breaking change.
pub open spec fn any_breaking(commits: Seq<ParsedCommitView>) -> bool {
    exists|i: int| 0 <= i < commits.len() && commits[i].breaking
}

/// The greatest contribution bounds every single one, and is reached by one
/// of the commits unless the list is empty.
pub proof fn lemma_greatest_contribution(
    commits: Seq<ParsedCommitView>,
    minor_types: Seq<Seq<char>>,
    patch_types: Seq<Seq<char>>,
)
    ensures
        forall|i: int|
            0 <= i < commits.len() ==> (#[trigger] contribution(
                commits[i],
                minor_types,
                patch_types,
            )).rank() <= greatest_contribution(commits, minor_types, patch_types).rank(),
        commits.len() > 0 ==> exists|i: int|
            0 <= i < commits.len() && #[trigger] contribution(commits[i], minor_types, patch_types)
                == greatest_contribution(commits, minor_types, patch_types),
        commits.len() == 0 ==> greatest_contribution(commits, minor_types, patch_types)
            == BumpType::NoBump,
    decreases commits.len(),
{
    if commits.len() > 0 {
        let front = commits.drop_last();
        lemma_greatest_contribution(front, minor_types, patch_types);
        let total = greatest_contribution(commits, minor_types, patch_types);
        assert forall|i: int| 0 <= i < commits.len() implies (#[trigger] contribution(
            commits[i],
            minor_types,
            patch_types,
        )).rank() <= total.rank() by {
            if i < front.len() {
                assert(front[i] == commits[i]);
            }
        }
        let last = contribution(commits.last(), minor_types, patch_types);
        if total == last {
            assert(contribution(commits[commits.len() - 1], minor_types, patch_types) == total);
        } else {
            assert(front.len() > 0);
            let i = choose|i: int|
                0 <= i < front.len() && #[trigger] contribution(front[i], minor_types, patch_types)
                    == greatest_contribution(front, minor_types, patch_types);
            assert(front[i] == commits[i]);
            assert(contribution(commits[i], minor_types, patch_types) == total);
        }
    }
}

/// Any breaking commit makes the greatest contribution a major bump,
/// whatever else the list holds and however long it is.
pub proof fn lemma_breaking_forces_major(
    commits: Seq<ParsedCommitView>,
    minor_types: Seq<Seq<char>>,
    patch_types: Seq<Seq<char>>,
)
    requires
        any_breaking(commits),
    ensures
        greatest_contribution(commits, minor_types, patch_types) == BumpType::Major,
{
    lemma_greatest_contribution(commits, minor_types, patch_types);
    let i = choose|i: int| 0 <= i < commits.len() && commits[i].breaking;
    assert(contribution(commits[i], minor_types, patch_types) == BumpType::Major);
}

/// Determines version bump type from parsed commits.
pub trait BumpStrategy: Plugin {
    /// The bump kind this strategy assigns to a list of commits. A strategy
    /// that does not say what it computes leaves this open.
    open spec fn decision(&self, commits: Seq<ParsedCommitView>) -> BumpType {
        vstd::pervasive::arbitrary()
    }

    /// Determines the bump type based on the given commits. Whatever the
    /// strategy, a breaking change among the commits yields a major bump.
    fn determine(&self, commits: &[ParsedCommit]) -> (r: BumpType)
        ensures
            r == self.decision(commit_views(commits@)),
            any_breaking(commit_views(commits@)) ==> r == BumpType::Major,
    ;
}

/// SemVer bump strategy.
///
/// Determines version bump based on conventional commit types:
/// - Breaking changes give a major bump
/// - `feat` gives a minor bump
/// - `fix` and `perf` give a patch bump
/// - anything else gives none
pub struct SemverBumper {
    /// Types that trigger a patch bump.
    patch_types: Vec<String>,
    /// Types that trigger a minor bump.
    minor_types: Vec<String>,
}

impl SemverBumper {
    /// The types that trigger a patch bump.
    pub closed spec fn patch_set(&self) -> Seq<Seq<char>> {
        texts(self.patch_types@)
    }

    /// The types that trigger a minor bump.
    pub closed spec fn minor_set(&self) -> Seq<Seq<char>> {
        texts(self.minor_types@)
    }

    /// Creates a new SemVer bumper with default configuration.
    pub fn new() -> (r: SemverBumper)
        ensures
            r.minor_set() == seq!["feat"@],
            r.patch_set() == seq!["fix"@, "perf"@],
    {
        let mut patch_types: Vec<String> = Vec::new();
        patch_types.push(String::from_str("fix"));
        patch_types.push(String::from_str("perf"));
        let mut minor_types: Vec<String> = Vec::new();
        minor_types.push(String::from_str("feat"));
        let r = SemverBumper { patch_types, minor_types };
        assert(r.minor_set() == seq!["feat"@]);
        assert(r.patch_set() == seq!["fix"@, "perf"@]);
        r
    }

    /// Sets the types that trigger a patch bump.
    pub fn with_patch_types(self, types: Vec<String>) -> (r: SemverBumper)
        ensures
            r.patch_set() == texts(types@),
            r.minor_set() == self.minor_set(),
    {
        SemverBumper { patch_types: types, minor_types: self.minor_types }
    }

    /// Sets the types that trigger a minor bump.
    pub fn with_minor_types(self, types: Vec<String>) -> (r: SemverBumper)
        ensures
            r.minor_set() == texts(types@),
            r.patch_set() == self.patch_set(),
    {
        SemverBumper { patch_types: self.patch_types, minor_types: types }
    }
}

impl Plugin for SemverBumper {
    fn name(&self) -> (r: &'static str)
        ensures
            r@ == "semver"@,
    {
        "semver"
    }

    fn version(&self) -> (r: &'static str)
        ensures
            r@ == PACKAGE_VERSION@,
    {
        PACKAGE_VERSION
    }

    fn description(&self) -> (r: &'static str)
        ensures
            r@ == "Determines version bump using SemVer conventions"@,
    {
        "Determines version bump using SemVer conventions"
    }
}

impl BumpStrategy for SemverBumper {
    open spec fn decision(&self, commits: Seq<ParsedCommitView>) -> BumpType {
        greatest_contribution(commits, self.minor_set(), self.patch_set())
    }

    fn determine(&self, commits: &[ParsedCommit]) -> (r: BumpType) {
        let ghost views = commit_views(commits@);
        let mut bump = BumpType::NoBump;
        let mut i: usize = 0;
        while i < commits.len()
            invariant
                i <= commits.len(),
                views == commit_views(commits@),
                bump == greatest_contribution(
                    views.take(i as int),
                    self.minor_set(),
                    self.patch_set(),
                ),
                forall|j: int| 0 <= j < i ==> !views[j].breaking,
            decreases commits.len() - i,
        {
            let commit = &commits[i];
            assert(views[i as int] == commit@);
            // Breaking changes always win
            if commit.breaking {
                proof {
                    lemma_breaking_forces_major(views, self.minor_set(), self.patch_set());
                }
                return BumpType::Major;
            }
            let ghost before = bump;
            // Check for minor bump
            if contains_text(&self.minor_types, commit.commit_type.as_str()) {
                bump = bump.max(BumpType::Minor);
            }
            // Check for patch bump
            if contains_text(&self.patch_types, commit.commit_type.as_str()) {
                bump = bump.max(BumpType::Patch);
            }
            proof {
                let next = views.take(i + 1);
                assert(next.drop_last() == views.take(i as int));
                assert(next.last() == commit@);
                assert(bump == before.spec_max(
                    contribution(commit@, self.minor_set(), self.patch_set()),
                ));
            }
            i += 1;
        }
        proof {
            assert(views.take(commits@.len() as int) == views);
            if any_breaking(views) {
                let k = choose|k: int| 0 <= k < views.len() && views[k].breaking;
                assert(!views[k].breaking);
            }
        }
        bump
    }
}

impl Default for SemverBumper {
    fn default() -> (r: SemverBumper)
        ensures
            r.minor_set() == seq!["feat"@],
            r.patch_set() == seq!["fix"@, "perf"@],
    {
        SemverBumper::new()
    }
}

} // verus!
