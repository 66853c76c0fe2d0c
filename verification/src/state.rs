//! Workflow state and the dual-mode execution context.
//!
//! Every operation takes a [`RunType`]: under `Real` it performs its effect,
//! under `DryRun` it performs no externally observable side effect and
//! instead appends exactly one line describing what it would do.

use vstd::prelude::*;

use crate::correlate;

verus! {

/// Which issue, if any, the pipeline has selected so far.
#[derive(Debug, Clone, PartialEq, Eq)]
pub enum Issue {
    /// No issue selected yet.
    Initial,
    /// The issue an earlier step selected.
    Selected(correlate::Issue),
}

/// The mutable context threaded through the whole pipeline.
#[derive(Debug, Clone, PartialEq, Eq)]
pub struct State {
    pub issue: Issue,
}

impl State {
    /// A fresh state with no issue selected.
    pub fn new() -> (s: State)
        ensures
            s.issue is Initial,
    {
        State { issue: Issue::Initial }
    }
}

/// The dual-mode execution context: a real run, or a dry run carrying the
/// description lines written so far.
#[derive(Debug)]
pub enum RunType {
    /// Nothing touches the repository or any remote service; each operation
    /// appends one line describing its intent.
    DryRun { state: State, stdout: Vec<String> },
    /// Operations perform their real effects.
    Real(State),
}

impl RunType {
    /// Whether this context is a dry run.
    pub open spec fn is_dry_run(self) -> bool {
        self is DryRun
    }

    /// The workflow state the context carries.
    pub open spec fn spec_state(self) -> State {
        match self {
            RunType::DryRun { state, .. } => state,
            RunType::Real(state) => state,
        }
    }

    /// The dry-run description lines written so far (empty for a real run).
    pub open spec fn spec_lines(self) -> Seq<Seq<char>> {
        match self {
            RunType::DryRun { stdout, .. } => stdout@.map_values(|s: String| s@),
            RunType::Real(_) => Seq::empty(),
        }
    }

    /// Split the context into its state and, for a dry run, its sink.
    pub fn decompose(self) -> (r: (State, Option<Vec<String>>))
        ensures
            r.0 == self.spec_state(),
            match r.1 {
                Some(out) => self is DryRun && out@.map_values(|s: String| s@)
                    == self.spec_lines(),
                None => self is Real,
            },
    {
        match self {
            RunType::DryRun { state, stdout } => (state, Some(stdout)),
            RunType::Real(state) => (state, None),
        }
    }
}

} // verus!
