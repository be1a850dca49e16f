//! The lazy resource-path resolver: a three-level cursor that expands an
//! ordered pattern list into concrete file paths, recursing into matched
//! directories only when allowed.
//!
//! The filesystem work — opening a glob expansion, fetching its next
//! match, walking a directory — is performed by the caller, who asks the
//! cursor what it needs next (`request`) and hands the outcome back
//! (`on_pattern`, `on_glob`, `on_walk`).  Every decision of the original
//! iterator — which items are yielded, which are suppressed, which become
//! inline errors, and in what order the levels advance — is made here.

use vstd::prelude::*;
use crate::error::BundleError;
use crate::strutil::concat_str;

verus! {

/// Which level of the cursor is active.
#[derive(Clone, Copy, Debug, PartialEq, Eq, Structural)]
pub enum ResolverPhase {
    /// Ready to start expanding the next pattern of the list.
    Patterns,
    /// Consuming the matches of the currently open glob expansion.
    Globbing,
    /// Enumerating the descendants of a matched directory.
    Walking,
}

/// What the cursor needs next from the filesystem.
#[derive(Clone, Debug, PartialEq, Eq)]
pub enum ResolverRequest {
    /// Open a glob expansion for this pattern, then report with `on_pattern`.
    OpenPattern(String),
    /// Fetch the next match of the open glob expansion, then report with `on_glob`.
    FetchGlobMatch,
    /// Fetch the next entry of the directory walk, then report with `on_walk`.
    FetchWalkEntry,
    /// The pattern list is exhausted; the sequence has ended.
    Finished,
}

/// The outcome of opening a glob expansion for one pattern.
#[derive(Clone, Debug, PartialEq, Eq)]
pub enum PatternEvent {
    /// The pattern parsed; its matches can now be fetched.
    Opened,
    /// The pattern was malformed; carries the description.
    Invalid(String),
}

/// The outcome of fetching the next match of a glob expansion.
#[derive(Clone, Debug, PartialEq, Eq)]
pub enum GlobEvent {
    /// A matched path, and whether it is a directory.
    Match(String, bool),
    /// Reading a match failed; carries the description.
    Failed(String),
    /// The expansion has no further matches.
    Exhausted,
}

/// The outcome of fetching the next entry of a directory walk.
#[derive(Clone, Debug, PartialEq, Eq)]
pub enum WalkEvent {
    /// An entry's path, and whether it is a directory.
    Entry(String, bool),
    /// Reading an entry failed; carries the description.
    Failed(String),
    /// The walk has no further entries.
    Exhausted,
}

/// What one step of the cursor produced.
#[derive(Debug, PartialEq, Eq)]
pub enum ResolverStep {
    /// The next item of the sequence: a resolved path, or an inline error.
    Yield(Result<String, BundleError>),
    /// Nothing was produced; ask `request` again.
    Continue,
}

/// A lazy, finite, not restartable cursor over the file paths that an
/// ordered list of glob patterns resolves to.
pub struct ResourcePaths {
    patterns: Vec<String>,
    idx: usize,
    phase: ResolverPhase,
    allow_walk: bool,
}

impl ResourcePaths {
    /// The declared pattern list.
    pub closed spec fn patterns(self) -> Seq<Seq<char>> {
        self.patterns.deep_view()
    }

    /// How many patterns have been started.
    pub closed spec fn idx(self) -> int {
        self.idx as int
    }

    /// The active level.
    pub closed spec fn phase(self) -> ResolverPhase {
        self.phase
    }

    /// Whether matched directories are walked rather than rejected.
    pub closed spec fn allow_walk(self) -> bool {
        self.allow_walk
    }

    /// The cursor never starts more patterns than it has.
    pub closed spec fn wf(self) -> bool {
        self.idx <= self.patterns.len()
    }

    /// A fresh cursor over `patterns`: no pattern started yet, at the
    /// pattern level.
    pub fn new(patterns: Vec<String>, allow_walk: bool) -> (r: ResourcePaths)
        ensures
            r.patterns() == patterns.deep_view(),
            r.idx() == 0,
            r.phase() == ResolverPhase::Patterns,
            r.allow_walk() == allow_walk,
            r.wf(),
    {
        ResourcePaths { patterns, idx: 0, phase: ResolverPhase::Patterns, allow_walk }
    }

    /// What the caller must do next.  At the pattern level the next
    /// pattern of the list is handed out for expansion, in declaration
    /// order; when none is left the sequence has ended.
    pub fn request(&self) -> (r: ResolverRequest)
        requires
            self.wf(),
        ensures
            self.phase() is Globbing ==> r == ResolverRequest::FetchGlobMatch,
            self.phase() is Walking ==> r == ResolverRequest::FetchWalkEntry,
            self.phase() is Patterns && self.idx() < self.patterns().len() ==> (r matches
                ResolverRequest::OpenPattern(p) && p@ == self.patterns()[self.idx()]),
            self.phase() is Patterns && self.idx() == self.patterns().len() ==> r
                == ResolverRequest::Finished,
    {
        match self.phase {
            ResolverPhase::Globbing => ResolverRequest::FetchGlobMatch,
            ResolverPhase::Walking => ResolverRequest::FetchWalkEntry,
            ResolverPhase::Patterns => {
                if self.idx < self.patterns.len() {
                    ResolverRequest::OpenPattern(self.patterns[self.idx].clone())
                } else {
                    ResolverRequest::Finished
                }
            },
        }
    }

    /// Consumes the outcome of opening the requested pattern.  The
    /// pattern counts as started either way: a malformed pattern is
    /// yielded as an inline error and the remaining patterns go on.
    pub fn on_pattern(&mut self, ev: PatternEvent) -> (r: ResolverStep)
        requires
            old(self).wf(),
            old(self).phase() is Patterns,
            old(self).idx() < old(self).patterns().len(),
        ensures
            final(self).wf(),
            final(self).patterns() == old(self).patterns(),
            final(self).allow_walk() == old(self).allow_walk(),
            final(self).idx() == old(self).idx() + 1,
            ev is Opened ==> final(self).phase() is Globbing && r == ResolverStep::Continue,
            (ev matches PatternEvent::Invalid(m) ==> final(self).phase() is Patterns && (
            r matches ResolverStep::Yield(e) && e matches Err(be) && be matches
                BundleError::Filesystem(d) && d@ == m@)),
    {
        self.idx = self.idx + 1;
        match ev {
            PatternEvent::Opened => {
                self.phase = ResolverPhase::Globbing;
                ResolverStep::Continue
            },
            PatternEvent::Invalid(m) => ResolverStep::Yield(
                Err(BundleError::Filesystem(m)),
            ),
        }
    }

    /// Consumes the next match of the open glob expansion.  A plain file
    /// is yielded; a directory is walked when walking is allowed and
    /// yielded as an inline error otherwise; a failed read is yielded as
    /// an inline error; an exhausted expansion falls back to the pattern
    /// level.
    pub fn on_glob(&mut self, ev: GlobEvent) -> (r: ResolverStep)
        requires
            old(self).wf(),
            old(self).phase() is Globbing,
        ensures
            final(self).wf(),
            final(self).patterns() == old(self).patterns(),
            final(self).allow_walk() == old(self).allow_walk(),
            final(self).idx() == old(self).idx(),
            (ev matches GlobEvent::Match(p, is_dir) ==> {
                &&& (!is_dir ==> final(self).phase() is Globbing && (r matches
                    ResolverStep::Yield(e) && e matches Ok(q) && q@ == p@))
                &&& (is_dir && old(self).allow_walk() ==> final(self).phase() is Walking && r
                    == ResolverStep::Continue)
                &&& (is_dir && !old(self).allow_walk() ==> final(self).phase() is Globbing && (
                r matches ResolverStep::Yield(e) && e matches Err(be) && be matches
                    BundleError::Filesystem(d) && d@ == p@ + " is a directory"@))
            }),
            (ev matches GlobEvent::Failed(m) ==> final(self).phase() is Globbing && (
            r matches ResolverStep::Yield(e) && e matches Err(be) && be matches
                BundleError::Filesystem(d) && d@ == m@)),
            ev is Exhausted ==> final(self).phase() is Patterns && r == ResolverStep::Continue,
    {
        match ev {
            GlobEvent::Match(p, is_dir) => {
                if is_dir {
                    if self.allow_walk {
                        self.phase = ResolverPhase::Walking;
                        ResolverStep::Continue
                    } else {
                        ResolverStep::Yield(
                            Err(BundleError::Filesystem(concat_str(p.as_str(), " is a directory"))),
                        )
                    }
                } else {
                    ResolverStep::Yield(Ok(p))
                }
            },
            GlobEvent::Failed(m) => ResolverStep::Yield(Err(BundleError::Filesystem(m))),
            GlobEvent::Exhausted => {
                self.phase = ResolverPhase::Patterns;
                ResolverStep::Continue
            },
        }
    }

    /// Consumes the next entry of the directory walk.  Every non-directory
    /// entry's path is yielded; directory entries are traversal nodes and
    /// are suppressed; a failed read is yielded as an inline error; an
    /// exhausted walk falls back to the glob level.
    pub fn on_walk(&mut self, ev: WalkEvent) -> (r: ResolverStep)
        requires
            old(self).wf(),
            old(self).phase() is Walking,
        ensures
            final(self).wf(),
            final(self).patterns() == old(self).patterns(),
            final(self).allow_walk() == old(self).allow_walk(),
            final(self).idx() == old(self).idx(),
            (ev matches WalkEvent::Entry(p, is_dir) ==> {
                &&& (!is_dir ==> final(self).phase() is Walking && (r matches
                    ResolverStep::Yield(e) && e matches Ok(q) && q@ == p@))
                &&& (is_dir ==> final(self).phase() is Walking && r == ResolverStep::Continue)
            }),
            (ev matches WalkEvent::Failed(m) ==> final(self).phase() is Walking && (
            r matches ResolverStep::Yield(e) && e matches Err(be) && be matches
                BundleError::Filesystem(d) && d@ == m@)),
            ev is Exhausted ==> final(self).phase() is Globbing && r == ResolverStep::Continue,
    {
        match ev {
            WalkEvent::Entry(p, is_dir) => {
                if is_dir {
                    ResolverStep::Continue
                } else {
                    ResolverStep::Yield(Ok(p))
                }
            },
            WalkEvent::Failed(m) => ResolverStep::Yield(Err(BundleError::Filesystem(m))),
            WalkEvent::Exhausted => {
                self.phase = ResolverPhase::Globbing;
                ResolverStep::Continue
            },
        }
    }
}

} // verus!
