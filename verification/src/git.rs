//! What the Git adapter needs decided: which tag holds the latest version,
//! and the errors it reports. Reading and writing the repository is the
//! caller's part.

use crate::text::{opt_text, texts};
use crate::version::{
    opt_version, precedence, reading_views, tag_version, Precedence, Version, VersionManager,
    VersionView,
};
use vstd::prelude::*;

verus! {

/// Git-related errors.
#[derive(Debug, Clone, PartialEq, Eq)]
pub enum GitError {
    /// Repository not found.
    RepoNotFound(String),
    /// Not a git repository.
    NotARepo(String),
    /// Tag not found.
    TagNotFound(String),
    /// No commits found.
    NoCommits,
    /// Error of the Git library.
    Git2(String),
    /// IO error.
    Io(String),
}

/// Result type for git operations.
pub type GitResult<T> = Result<T, GitError>;

impl GitError {
    /// The message of the error.
    pub open spec fn message(self) -> Seq<char> {
        match self {
            GitError::RepoNotFound(path) => "repository not found at "@ + path@,
            GitError::NotARepo(path) => "not a git repository: "@ + path@,
            GitError::TagNotFound(tag) => "tag not found: "@ + tag@,
            GitError::NoCommits => "no commits found"@,
            GitError::Git2(what) => "git error: "@ + what@,
            GitError::Io(what) => "IO error: "@ + what@,
        }
    }

    /// The message of the error.
    pub fn to_string(&self) -> (r: String)
        ensures
            r@ == self.message(),
    {
        match self {
            GitError::RepoNotFound(path) => {
                let mut out = String::from_str("repository not found at ");
                out.append(path.as_str());
                out
            },
            GitError::NotARepo(path) => {
                let mut out = String::from_str("not a git repository: ");
                out.append(path.as_str());
                out
            },
            GitError::TagNotFound(tag) => {
                let mut out = String::from_str("tag not found: ");
                out.append(tag.as_str());
                out
            },
            GitError::NoCommits => String::from_str("no commits found"),
            GitError::Git2(what) => {
                let mut out = String::from_str("git error: ");
                out.append(what.as_str());
                out
            },
            GitError::Io(what) => {
                let mut out = String::from_str("IO error: ");
                out.append(what.as_str());
                out
            },
        }
    }
}

/// The position of the latest version among the first `n` readings: the
/// readings are gone through in order, and a version takes the place of the
/// best one so far only where it comes strictly after. A reading that is no
/// version does not count.
pub open spec fn latest_of(readings: Seq<Option<VersionView>>, n: int) -> Option<int>
    decreases n,
{
    if n <= 0 {
        None
    } else {
        let before = latest_of(readings, n - 1);
        match readings[n - 1] {
            None => before,
            Some(version) => match before {
                None => Some(n - 1),
                Some(best) => if precedence(readings[best]->0, version) == Some(
                    Precedence::Lower,
                ) {
                    Some(n - 1)
                } else {
                    before
                },
            },
        }
    }
}

/// What each tag reads as under a prefix.
pub open spec fn tag_readings(tags: Seq<Seq<char>>, prefix: Seq<char>) -> Seq<
    Option<VersionView>,
> {
    tags.map_values(|tag: Seq<char>| tag_version(tag, prefix))
}

/// The position of the tag with the latest version among the first `n`
/// tags. A tag that lacks the prefix, or whose rest is no version, does not
/// count.
pub open spec fn latest_among(tags: Seq<Seq<char>>, prefix: Seq<char>, n: int) -> Option<int> {
    latest_of(tag_readings(tags, prefix), n)
}

/// The tag with the latest version.
pub open spec fn latest_tag(tags: Seq<Seq<char>>, prefix: Seq<char>) -> Option<Seq<char>> {
    match latest_among(tags, prefix, tags.len() as int) {
        Some(i) => Some(tags[i]),
        None => None,
    }
}

/// What `latest_of` finds is the position of a version.
pub proof fn lemma_latest_of(readings: Seq<Option<VersionView>>, n: int)
    requires
        0 <= n <= readings.len(),
    ensures
        match latest_of(readings, n) {
            Some(i) => 0 <= i < n && readings[i] is Some,
            None => forall|j: int| 0 <= j < n ==> readings[j] is None,
        },
    decreases n,
{
    if n > 0 {
        lemma_latest_of(readings, n - 1);
    }
}

/// The latest tag is one of the tags and stands for a version; there is
/// none exactly when no tag stands for a version.
pub proof fn lemma_latest_tag(tags: Seq<Seq<char>>, prefix: Seq<char>)
    ensures
        match latest_tag(tags, prefix) {
            Some(tag) => tag_version(tag, prefix) is Some && exists|i: int|
                0 <= i < tags.len() && tags[i] == tag,
            None => forall|i: int| 0 <= i < tags.len() ==> tag_version(tags[i], prefix) is None,
        },
{
    let readings = tag_readings(tags, prefix);
    lemma_latest_of(readings, tags.len() as int);
    assert forall|i: int| 0 <= i < tags.len() implies readings[i] == tag_version(
        tags[i],
        prefix,
    ) by {}
    match latest_of(readings, tags.len() as int) {
        Some(i) => {
            assert(0 <= i < tags.len() && readings[i] is Some);
            assert(latest_tag(tags, prefix) == Some(tags[i]));
            assert(tag_version(tags[i], prefix) is Some);
        },
        None => {
            assert(latest_tag(tags, prefix) is None);
            assert forall|i: int| 0 <= i < tags.len() implies tag_version(
                tags[i],
                prefix,
            ) is None by {
                assert(readings[i] is None);
            }
        },
    }
}

/// The position of the latest version among readings, some of which may be
/// no version.
pub fn latest_position(readings: &Vec<Option<Version>>) -> (r: Option<usize>)
    ensures
        (match r {
            Some(i) => Some(i as int),
            None => None,
        }) == latest_of(reading_views(readings@), readings.len() as int),
        r is Some ==> r->0 < readings.len() && readings[r->0 as int] is Some,
{
    let mut best: Option<usize> = None;
    let mut i: usize = 0;
    while i < readings.len()
        invariant
            i <= readings.len(),
            match best {
                Some(found) => latest_of(reading_views(readings@), i as int) == Some(
                    found as int,
                ) && found < i && readings[found as int] is Some,
                None => latest_of(reading_views(readings@), i as int) is None,
            },
        decreases readings.len() - i,
    {
        assert(reading_views(readings@)[i as int] == opt_version(readings@[i as int]));
        match &readings[i] {
            None => {},
            Some(version) => {
                let better = match best {
                    None => true,
                    Some(found) => {
                        assert(reading_views(readings@)[found as int] == opt_version(
                            readings@[found as int],
                        ));
                        match &readings[found] {
                            Some(held) => version.is_newer_than(held),
                            None => false,
                        }
                    },
                };
                if better {
                    best = Some(i);
                }
            },
        }
        i += 1;
    }
    best
}

/// Returns the latest tag matching a version pattern: among the tags that
/// are the prefix followed by a version, the one with the latest version.
pub fn latest_version_tag(tags: &Vec<String>, prefix: &str) -> (r: Option<String>)
    ensures
        opt_text(r) == latest_tag(texts(tags@), prefix@),
{
    let manager = VersionManager::new();
    let mut readings: Vec<Option<Version>> = Vec::new();
    let mut i: usize = 0;
    while i < tags.len()
        invariant
            i <= tags.len(),
            reading_views(readings@) == tag_readings(texts(tags@), prefix@).take(i as int),
        decreases tags.len() - i,
    {
        let ghost before = reading_views(readings@);
        let ghost all = tag_readings(texts(tags@), prefix@);
        assert(texts(tags@)[i as int] == tags@[i as int]@);
        let reading = manager.from_tag(tags[i].as_str(), prefix);
        readings.push(reading);
        assert(reading_views(readings@) =~= before.push(all[i as int]));
        assert(all.take(i + 1) =~= all.take(i as int).push(all[i as int]));
        i += 1;
    }
    assert(tag_readings(texts(tags@), prefix@).take(tags@.len() as int) =~= tag_readings(
        texts(tags@),
        prefix@,
    ));
    assert(readings.len() == tags.len()) by {
        assert(reading_views(readings@).len() == readings@.len());
    }
    match latest_position(&readings) {
        Some(found) => Some(tags[found].clone()),
        None => None,
    }
}

} // verus!
