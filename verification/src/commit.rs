//! Commit value types: a commit as read from Git, and its classification.

use crate::clock::current_timestamp;
use crate::text::{chars_of, clone_opt, opt_text, pair_texts, str_eq, substring};
use vstd::prelude::*;

verus! {

/// A commit as retrieved from Git, before parsing.
#[derive(Debug, Clone, PartialEq, Eq)]
pub struct RawCommit {
    /// The commit hash (SHA).
    pub hash: String,
    /// The full commit message (subject + body).
    pub message: String,
    /// The commit author name.
    pub author: String,
    /// The commit author email.
    pub email: String,
    /// The commit date, in seconds since the Unix epoch.
    pub date: i64,
}

/// The mathematical content of a [`RawCommit`].
pub struct RawCommitView {
    pub hash: Seq<char>,
    pub message: Seq<char>,
    pub author: Seq<char>,
    pub email: Seq<char>,
    pub date: int,
}

impl View for RawCommit {
    type V = RawCommitView;

    open spec fn view(&self) -> RawCommitView {
        RawCommitView {
            hash: self.hash@,
            message: self.message@,
            author: self.author@,
            email: self.email@,
            date: self.date as int,
        }
    }
}

/// The end of the first line of `s`: the position of its first line feed, or
/// its length where it has none.
pub open spec fn first_line_end(s: Seq<char>) -> int
    decreases s.len(),
{
    if s.len() == 0 || s[0] == '\n' {
        0
    } else {
        1 + first_line_end(s.skip(1))
    }
}

/// The first line of `s`, without its line ending (`\n` or `\r\n`).
pub open spec fn first_line(s: Seq<char>) -> Seq<char> {
    let end = first_line_end(s);
    if end < s.len() && end > 0 && s[end - 1] == '\r' {
        s.take(end - 1)
    } else {
        s.take(end)
    }
}

/// The first `n` characters of `s`, or all of it where it is shorter.
pub open spec fn leading(s: Seq<char>, n: nat) -> Seq<char> {
    if s.len() <= n {
        s
    } else {
        s.take(n as int)
    }
}

/// The first line ends at `k` where `k` holds the first line feed of `s`,
/// or is the length of `s` and `s` holds none.
pub proof fn lemma_first_line_end(s: Seq<char>, k: int)
    requires
        0 <= k <= s.len(),
        forall|j: int| 0 <= j < k ==> s[j] != '\n',
        k == s.len() || s[k] == '\n',
    ensures
        first_line_end(s) == k,
    decreases k,
{
    if k > 0 {
        lemma_first_line_end(s.skip(1), k - 1);
    }
}

/// The subject of a commit message: its first line.
pub fn subject_of(message: &str) -> (r: String)
    ensures
        r@ == first_line(message@),
{
    let v = chars_of(message);
    let mut end: usize = 0;
    while end < v.len() && v[end] != '\n'
        invariant
            end <= v.len(),
            forall|j: int| 0 <= j < end ==> v@[j] != '\n',
        decreases v.len() - end,
    {
        end += 1;
    }
    proof {
        lemma_first_line_end(v@, end as int);
    }
    if end < v.len() && end > 0 && v[end - 1] == '\r' {
        substring(&v, 0, end - 1)
    } else {
        substring(&v, 0, end)
    }
}

/// The first seven characters of a hash, or all of it where it is shorter.
pub fn abbreviate_hash(hash: &str) -> (r: String)
    ensures
        r@ == leading(hash@, 7),
{
    let v = chars_of(hash);
    if v.len() <= 7 {
        assert(v@.subrange(0, v@.len() as int) == v@);
        substring(&v, 0, v.len())
    } else {
        substring(&v, 0, 7)
    }
}

impl RawCommit {
    /// Creates a new raw commit.
    pub fn new(hash: &str, message: &str, author: &str, email: &str, date: i64) -> (r: RawCommit)
        ensures
            r@ == (RawCommitView {
                hash: hash@,
                message: message@,
                author: author@,
                email: email@,
                date: date as int,
            }),
    {
        RawCommit {
            hash: String::from_str(hash),
            message: String::from_str(message),
            author: String::from_str(author),
            email: String::from_str(email),
            date,
        }
    }

    /// Returns the first line of the commit message (the subject).
    pub fn subject(&self) -> (r: String)
        ensures
            r@ == first_line(self@.message),
    {
        subject_of(self.message.as_str())
    }

    /// Returns the commit body. Body extraction is not provided: the result
    /// is always absent, whatever the message holds.
    pub fn body(&self) -> (r: Option<String>)
        ensures
            r is None,
    {
        None
    }

    /// Returns the short hash (first 7 characters).
    pub fn short_hash(&self) -> (r: String)
        ensures
            r@ == leading(self@.hash, 7),
    {
        abbreviate_hash(self.hash.as_str())
    }
}

/// A commit after parsing by a parser plugin.
#[derive(Debug, Clone, PartialEq, Eq)]
pub struct ParsedCommit {
    /// The commit hash (SHA).
    pub hash: String,
    /// The commit type (feat, fix, docs, etc.).
    pub commit_type: String,
    /// The optional scope.
    pub scope: Option<String>,
    /// The commit message (without type and scope prefix).
    pub message: String,
    /// Whether this is a breaking change.
    pub breaking: bool,
    /// The optional emoji (for Gitmoji).
    pub emoji: Option<String>,
    /// Additional metadata from custom parsers (e.g., ticket number), as
    /// key/value pairs in the order the keys were first set.
    pub metadata: Vec<(String, String)>,
    /// The commit author name.
    pub author: String,
    /// The commit date, in seconds since the Unix epoch.
    pub date: i64,
}

/// The mathematical content of a [`ParsedCommit`].
pub struct ParsedCommitView {
    pub hash: Seq<char>,
    pub commit_type: Seq<char>,
    pub scope: Option<Seq<char>>,
    pub message: Seq<char>,
    pub breaking: bool,
    pub emoji: Option<Seq<char>>,
    pub metadata: Seq<(Seq<char>, Seq<char>)>,
    pub author: Seq<char>,
    pub date: int,
}

impl View for ParsedCommit {
    type V = ParsedCommitView;

    open spec fn view(&self) -> ParsedCommitView {
        ParsedCommitView {
            hash: self.hash@,
            commit_type: self.commit_type@,
            scope: opt_text(self.scope),
            message: self.message@,
            breaking: self.breaking,
            emoji: opt_text(self.emoji),
            metadata: pair_texts(self.metadata@),
            author: self.author@,
            date: self.date as int,
        }
    }
}

/// The view of an optional commit.
pub open spec fn opt_commit(c: Option<ParsedCommit>) -> Option<ParsedCommitView> {
    match c {
        Some(c) => Some(c@),
        None => None,
    }
}

/// The views of a list of parsed commits.
pub open spec fn commit_views(commits: Seq<ParsedCommit>) -> Seq<ParsedCommitView> {
    commits.map_values(|c: ParsedCommit| c@)
}

/// The views of a list of raw commits.
pub open spec fn raw_views(commits: Seq<RawCommit>) -> Seq<RawCommitView> {
    commits.map_values(|c: RawCommit| c@)
}

/// No key occurs twice among the pairs.
pub open spec fn distinct_keys(pairs: Seq<(Seq<char>, Seq<char>)>) -> bool {
    forall|i: int, j: int| 0 <= i < j < pairs.len() ==> pairs[i].0 != pairs[j].0
}

/// The position of `key` among the pairs, if it is there.
pub open spec fn key_index(pairs: Seq<(Seq<char>, Seq<char>)>, key: Seq<char>) -> Option<int>
    decreases pairs.len(),
{
    if pairs.len() == 0 {
        None
    } else if pairs[0].0 == key {
        Some(0)
    } else {
        match key_index(pairs.skip(1), key) {
            Some(i) => Some(i + 1),
            None => None,
        }
    }
}

/// The value stored under `key`, if any.
pub open spec fn lookup(pairs: Seq<(Seq<char>, Seq<char>)>, key: Seq<char>) -> Option<Seq<char>> {
    match key_index(pairs, key) {
        Some(i) => Some(pairs[i].1),
        None => None,
    }
}

/// The pairs after `key` is set to `value`: an existing entry is replaced in
/// place, a new one goes to the end.
pub open spec fn with_entry(
    pairs: Seq<(Seq<char>, Seq<char>)>,
    key: Seq<char>,
    value: Seq<char>,
) -> Seq<(Seq<char>, Seq<char>)> {
    match key_index(pairs, key) {
        Some(i) => pairs.update(i, (key, value)),
        None => pairs.push((key, value)),
    }
}

/// What `key_index` returns is the first position that holds the key.
pub proof fn lemma_key_index(pairs: Seq<(Seq<char>, Seq<char>)>, key: Seq<char>)
    ensures
        match key_index(pairs, key) {
            Some(i) => 0 <= i < pairs.len() && pairs[i].0 == key && forall|j: int|
                0 <= j < i ==> pairs[j].0 != key,
            None => forall|j: int| 0 <= j < pairs.len() ==> pairs[j].0 != key,
        },
    decreases pairs.len(),
{
    if pairs.len() > 0 && pairs[0].0 != key {
        lemma_key_index(pairs.skip(1), key);
        match key_index(pairs.skip(1), key) {
            Some(i) => {
                assert forall|j: int| 0 <= j < i + 1 implies pairs[j].0 != key by {
                    if j > 0 {
                        assert(pairs.skip(1)[j - 1] == pairs[j]);
                    }
                }
            },
            None => {
                assert forall|j: int| 0 <= j < pairs.len() implies pairs[j].0 != key by {
                    if j > 0 {
                        assert(pairs.skip(1)[j - 1] == pairs[j]);
                    }
                }
            },
        }
    }
}

/// A position that holds the key, with none before it that does, is what
/// `key_index` returns.
pub proof fn lemma_key_index_is(pairs: Seq<(Seq<char>, Seq<char>)>, key: Seq<char>, at: int)
    requires
        0 <= at < pairs.len(),
        pairs[at].0 == key,
        forall|j: int| 0 <= j < at ==> pairs[j].0 != key,
    ensures
        key_index(pairs, key) == Some(at),
{
    lemma_key_index(pairs, key);
}

/// Setting a key behaves as it does in a map: the key then holds the new
/// value, every other key holds what it held, and where no key occurred
/// twice none does afterwards.
pub proof fn lemma_with_entry(
    pairs: Seq<(Seq<char>, Seq<char>)>,
    key: Seq<char>,
    value: Seq<char>,
    other: Seq<char>,
)
    ensures
        lookup(with_entry(pairs, key, value), key) == Some(value),
        other != key ==> lookup(with_entry(pairs, key, value), other) == lookup(pairs, other),
        distinct_keys(pairs) ==> distinct_keys(with_entry(pairs, key, value)),
{
    let after = with_entry(pairs, key, value);
    lemma_key_index(pairs, key);
    match key_index(pairs, key) {
        Some(i) => {
            lemma_key_index_is(after, key, i);
        },
        None => {
            lemma_key_index_is(after, key, pairs.len() as int);
        },
    }
    if other != key {
        lemma_key_index(pairs, other);
        lemma_key_index(after, other);
        if key_index(pairs, other) is Some {
            lemma_key_index_is(after, other, key_index(pairs, other)->0);
        }
        if key_index(after, other) is Some {
            lemma_key_index_is(pairs, other, key_index(after, other)->0);
        }
    }
}

/// The position of `key` among the pairs.
pub fn find_key(pairs: &Vec<(String, String)>, key: &str) -> (r: Option<usize>)
    ensures
        match r {
            Some(i) => key_index(pair_texts(pairs@), key@) == Some(i as int) && i < pairs.len(),
            None => key_index(pair_texts(pairs@), key@) is None,
        },
{
    let mut i: usize = 0;
    while i < pairs.len()
        invariant
            i <= pairs.len(),
            forall|j: int| 0 <= j < i ==> pair_texts(pairs@)[j].0 != key@,
        decreases pairs.len() - i,
    {
        if str_eq(pairs[i].0.as_str(), key) {
            proof {
                assert(pair_texts(pairs@)[i as int].0 == key@);
                lemma_key_index(pair_texts(pairs@), key@);
            }
            return Some(i);
        }
        i += 1;
    }
    proof {
        lemma_key_index(pair_texts(pairs@), key@);
    }
    None
}

/// The value stored under `key` in a list of key/value pairs.
pub fn get_entry(pairs: &Vec<(String, String)>, key: &str) -> (r: Option<String>)
    ensures
        opt_text(r) == lookup(pair_texts(pairs@), key@),
{
    match find_key(pairs, key) {
        Some(i) => Some(pairs[i].1.clone()),
        None => None,
    }
}

/// Sets `key` to `value` in a list of key/value pairs.
pub fn set_entry(pairs: &mut Vec<(String, String)>, key: &str, value: &str)
    ensures
        pair_texts(final(pairs)@) == with_entry(pair_texts(old(pairs)@), key@, value@),
{
    let entry = (String::from_str(key), String::from_str(value));
    match find_key(pairs, key) {
        Some(i) => {
            pairs.set(i, entry);
            assert(pair_texts(pairs@) == pair_texts(old(pairs)@).update(i as int, (key@, value@)));
        },
        None => {
            pairs.push(entry);
            assert(pair_texts(pairs@) == pair_texts(old(pairs)@).push((key@, value@)));
        },
    }
}

impl ParsedCommit {
    /// Creates a new parsed commit builder.
    pub fn builder(hash: &str, commit_type: &str) -> (r: ParsedCommitBuilder)
        ensures
            r.pending().hash == hash@,
            r.pending().commit_type == commit_type@,
            r.pending().scope is None,
            r.pending().message.len() == 0,
            !r.pending().breaking,
            r.pending().emoji is None,
            r.pending().metadata.len() == 0,
            r.pending().author.len() == 0,
    {
        ParsedCommitBuilder::new(hash, commit_type)
    }

    /// Returns true if this commit represents a feature.
    pub fn is_feature(&self) -> (r: bool)
        ensures
            r == (self@.commit_type == "feat"@),
    {
        str_eq(self.commit_type.as_str(), "feat")
    }

    /// Returns true if this commit represents a bug fix.
    pub fn is_fix(&self) -> (r: bool)
        ensures
            r == (self@.commit_type == "fix"@),
    {
        str_eq(self.commit_type.as_str(), "fix")
    }

    /// Returns true if this commit should trigger a major version bump.
    pub fn is_major(&self) -> (r: bool)
        ensures
            r == self@.breaking,
    {
        self.breaking
    }

    /// Returns true if this commit should trigger a minor version bump.
    pub fn is_minor(&self) -> (r: bool)
        ensures
            r == (!self@.breaking && self@.commit_type == "feat"@),
    {
        !self.breaking && self.is_feature()
    }

    /// Returns true if this commit should trigger a patch version bump.
    pub fn is_patch(&self) -> (r: bool)
        ensures
            r == (!self@.breaking && self@.commit_type == "fix"@),
    {
        !self.breaking && self.is_fix()
    }

    /// A copy of this commit.
    pub fn duplicate(&self) -> (r: ParsedCommit)
        ensures
            r@ == self@,
    {
        let mut metadata: Vec<(String, String)> = Vec::new();
        let mut i: usize = 0;
        while i < self.metadata.len()
            invariant
                i <= self.metadata.len(),
                pair_texts(metadata@) == pair_texts(self.metadata@).take(i as int),
            decreases self.metadata.len() - i,
        {
            metadata.push((self.metadata[i].0.clone(), self.metadata[i].1.clone()));
            assert(pair_texts(metadata@) == pair_texts(self.metadata@).take(i as int).push(
                pair_texts(self.metadata@)[i as int],
            ));
            i += 1;
        }
        assert(pair_texts(self.metadata@).take(self.metadata@.len() as int) == pair_texts(
            self.metadata@,
        ));
        ParsedCommit {
            hash: self.hash.clone(),
            commit_type: self.commit_type.clone(),
            scope: clone_opt(&self.scope),
            message: self.message.clone(),
            breaking: self.breaking,
            emoji: clone_opt(&self.emoji),
            metadata,
            author: self.author.clone(),
            date: self.date,
        }
    }
}

/// Builder for [`ParsedCommit`].
#[derive(Debug)]
pub struct ParsedCommitBuilder {
    commit: ParsedCommit,
}

impl ParsedCommitBuilder {
    /// The commit that `build` would return now.
    pub closed spec fn pending(&self) -> ParsedCommitView {
        self.commit@
    }

    /// Creates a new builder with required fields. The date starts as the
    /// current time.
    fn new(hash: &str, commit_type: &str) -> (r: ParsedCommitBuilder)
        ensures
            r.pending().hash == hash@,
            r.pending().commit_type == commit_type@,
            r.pending().scope is None,
            r.pending().message.len() == 0,
            !r.pending().breaking,
            r.pending().emoji is None,
            r.pending().metadata.len() == 0,
            r.pending().author.len() == 0,
    {
        ParsedCommitBuilder {
            commit: ParsedCommit {
                hash: String::from_str(hash),
                commit_type: String::from_str(commit_type),
                scope: None,
                message: String::new(),
                breaking: false,
                emoji: None,
                metadata: Vec::new(),
                author: String::new(),
                date: current_timestamp(),
            },
        }
    }

    /// Sets the scope.
    pub fn scope(self, scope: &str) -> (r: ParsedCommitBuilder)
        ensures
            r.pending() == (ParsedCommitView { scope: Some(scope@), ..self.pending() }),
    {
        let mut commit = self.commit;
        commit.scope = Some(String::from_str(scope));
        ParsedCommitBuilder { commit }
    }

    /// Sets the message.
    pub fn message(self, message: &str) -> (r: ParsedCommitBuilder)
        ensures
            r.pending() == (ParsedCommitView { message: message@, ..self.pending() }),
    {
        let mut commit = self.commit;
        commit.message = String::from_str(message);
        ParsedCommitBuilder { commit }
    }

    /// Sets the breaking flag.
    pub fn breaking(self, breaking: bool) -> (r: ParsedCommitBuilder)
        ensures
            r.pending() == (ParsedCommitView { breaking, ..self.pending() }),
    {
        let mut commit = self.commit;
        commit.breaking = breaking;
        ParsedCommitBuilder { commit }
    }

    /// Sets the emoji.
    pub fn emoji(self, emoji: &str) -> (r: ParsedCommitBuilder)
        ensures
            r.pending() == (ParsedCommitView { emoji: Some(emoji@), ..self.pending() }),
    {
        let mut commit = self.commit;
        commit.emoji = Some(String::from_str(emoji));
        ParsedCommitBuilder { commit }
    }

    /// Adds metadata. A key that is already present gets the new value.
    pub fn metadata(self, key: &str, value: &str) -> (r: ParsedCommitBuilder)
        ensures
            r.pending() == (ParsedCommitView {
                metadata: with_entry(self.pending().metadata, key@, value@),
                ..self.pending()
            }),
    {
        let mut commit = self.commit;
        set_entry(&mut commit.metadata, key, value);
        ParsedCommitBuilder { commit }
    }

    /// Sets the author.
    pub fn author(self, author: &str) -> (r: ParsedCommitBuilder)
        ensures
            r.pending() == (ParsedCommitView { author: author@, ..self.pending() }),
    {
        let mut commit = self.commit;
        commit.author = String::from_str(author);
        ParsedCommitBuilder { commit }
    }

    /// Sets the date, in seconds since the Unix epoch.
    pub fn date(self, date: i64) -> (r: ParsedCommitBuilder)
        ensures
            r.pending() == (ParsedCommitView { date: date as int, ..self.pending() }),
    {
        let mut commit = self.commit;
        commit.date = date;
        ParsedCommitBuilder { commit }
    }

    /// Builds the [`ParsedCommit`].
    pub fn build(self) -> (r: ParsedCommit)
        ensures
            r@ == self.pending(),
    {
        self.commit
    }
}

} // verus!
