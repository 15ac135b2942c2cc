//! Plugin pipeline execution.

use crate::bump::{any_breaking, BumpStrategy, BumpType};
use crate::commit::{commit_views, raw_views, ParsedCommit, ParsedCommitView, RawCommit, RawCommitView};
use crate::plugin::{ChangelogFormatter, CommitParser, ReleaseHook};
use vstd::prelude::*;

verus! {

/// Orchestrates plugin execution: one parser, one bumper, one formatter, and
/// the hooks in the order of their registration.
pub struct Pipeline<P: CommitParser, B: BumpStrategy, F: ChangelogFormatter, H: ReleaseHook> {
    parser: P,
    bumper: B,
    formatter: F,
    hooks: Vec<H>,
}

/// The classifications of the commits that `parser` accepts, in the order of
/// the commits. A commit that the parser does not accept is left out.
pub open spec fn classified<P: CommitParser>(parser: P, raws: Seq<RawCommitView>) -> Seq<
    ParsedCommitView,
>
    decreases raws.len(),
{
    if raws.len() == 0 {
        Seq::empty()
    } else {
        let front = classified(parser, raws.drop_last());
        match parser.classification(raws.last()) {
            Some(parsed) => front.push(parsed),
            None => front,
        }
    }
}

impl<P: CommitParser, B: BumpStrategy, F: ChangelogFormatter, H: ReleaseHook> Pipeline<P, B, F, H> {
    /// The parser of the pipeline.
    pub closed spec fn parser_of(&self) -> P {
        self.parser
    }

    /// The bumper of the pipeline.
    pub closed spec fn bumper_of(&self) -> B {
        self.bumper
    }

    /// The formatter of the pipeline.
    pub closed spec fn formatter_of(&self) -> F {
        self.formatter
    }

    /// The hooks of the pipeline, in the order of registration.
    pub closed spec fn hooks_of(&self) -> Seq<H> {
        self.hooks@
    }

    /// The number of hooks of the pipeline.
    pub closed spec fn hook_count(&self) -> nat {
        self.hooks@.len()
    }

    /// Creates a new pipeline with the given plugins.
    pub fn new(parser: P, bumper: B, formatter: F) -> (r: Self)
        ensures
            r.hook_count() == 0,
            r.parser_of() == parser,
            r.bumper_of() == bumper,
            r.formatter_of() == formatter,
    {
        Pipeline { parser, bumper, formatter, hooks: Vec::new() }
    }

    /// Adds a release hook, after those that are there.
    pub fn with_hook(self, hook: H) -> (r: Self)
        ensures
            r.hooks_of() == self.hooks_of().push(hook),
            r.hook_count() == self.hook_count() + 1,
            r.parser_of() == self.parser_of(),
            r.bumper_of() == self.bumper_of(),
            r.formatter_of() == self.formatter_of(),
    {
        let mut hooks = self.hooks;
        hooks.push(hook);
        Pipeline { parser: self.parser, bumper: self.bumper, formatter: self.formatter, hooks }
    }

    /// Parses raw commits using the configured parser. A commit that the
    /// parser does not accept is skipped; the others keep their order.
    pub fn parse_commits(&self, raw_commits: &[RawCommit]) -> (r: Vec<ParsedCommit>)
        ensures
            commit_views(r@) == classified(self.parser_of(), raw_views(raw_commits@)),
    {
        let mut out: Vec<ParsedCommit> = Vec::new();
        let mut i: usize = 0;
        let ghost raws = raw_views(raw_commits@);
        while i < raw_commits.len()
            invariant
                i <= raw_commits.len(),
                raws == raw_views(raw_commits@),
                commit_views(out@) == classified(self.parser_of(), raws.take(i as int)),
            decreases raw_commits.len() - i,
        {
            let ghost upto = raws.take(i + 1);
            assert(upto.drop_last() == raws.take(i as int));
            assert(upto.last() == raw_commits@[i as int]@);
            let ghost before = commit_views(out@);
            match self.parser.parse(&raw_commits[i]) {
                Some(parsed) => {
                    out.push(parsed);
                    assert(commit_views(out@) == before.push(parsed@));
                },
                None => {},
            }
            i += 1;
        }
        assert(raws.take(raw_commits@.len() as int) == raws);
        out
    }

    /// Determines the bump type using the configured bumper.
    pub fn determine_bump(&self, commits: &[ParsedCommit]) -> (r: BumpType)
        ensures
            r == self.bumper_of().decision(commit_views(commits@)),
            any_breaking(commit_views(commits@)) ==> r == BumpType::Major,
    {
        self.bumper.determine(commits)
    }

    /// Returns a reference to the formatter.
    pub fn formatter(&self) -> (r: &F)
        ensures
            *r == self.formatter_of(),
    {
        &self.formatter
    }

    /// Returns a reference to the hooks, in the order of registration.
    pub fn hooks(&self) -> (r: &Vec<H>)
        ensures
            r@ == self.hooks_of(),
            r@.len() == self.hook_count(),
    {
        &self.hooks
    }
}

} // verus!
