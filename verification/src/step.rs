//! The step state machine: the ordered pipeline of steps, each a transition
//! over the execution context, dispatched to the Git subsystem. The driver
//! runs steps strictly in order and halts the whole pipeline on the first
//! error.

use vstd::prelude::*;
use vstd::string::StringExecFns;

use crate::error::StepError;
use crate::state::RunType;

verus! {

/// One step of a workflow pipeline.
#[derive(Debug)]
pub enum Step {
    /// Attempt to parse issue info from the current branch name and select
    /// that issue in the workflow state.
    SelectIssueFromBranch,
    /// Use the selected issue to check out an existing branch or create a
    /// new one, prompting for the branch to base it on.
    SwitchBranches,
    /// Rebase the current branch onto the branch named `to`.
    RebaseBranch { to: String },
}

/// The one description line a step writes under a dry run, given the state
/// it starts from (the switch line names the branch derived from the
/// selected issue; with none selected the step fails instead).
pub open spec fn dry_line(step: Step, state: crate::state::State) -> Seq<char> {
    match step {
        Step::SelectIssueFromBranch => {
            "Would attempt to parse current branch name to select current issue"@
        },
        Step::SwitchBranches => match state.issue {
            crate::state::Issue::Selected(iss) => "Would switch to or create a branch named "@
                + crate::correlate::derived_branch_name(iss.key@, iss.summary@),
            crate::state::Issue::Initial => Seq::empty(),
        },
        Step::RebaseBranch { to } => "Would rebase current branch onto "@ + to@,
    }
}

/// Whether a step can fail at all under a dry run, given only whether an
/// issue is selected: only `SwitchBranches` can, when none is.
pub open spec fn sim_step_fails(step: Step, selected: bool) -> bool {
    step is SwitchBranches && !selected
}

/// Whether an issue is selected after a step runs under a dry run.
pub open spec fn sim_selected_after(step: Step, selected: bool) -> bool {
    selected || step is SelectIssueFromBranch
}

/// The index of the first step that fails under a dry run started with
/// `selected` saying whether an issue is selected, or `None` when every
/// step succeeds.
pub open spec fn first_sim_failure(steps: Seq<Step>, selected: bool) -> Option<int>
    decreases steps.len(),
{
    if steps.len() == 0 {
        None
    } else if sim_step_fails(steps[0], selected) {
        Some(0)
    } else {
        match first_sim_failure(steps.drop_first(), sim_selected_after(steps[0], selected)) {
            Some(i) => Some(i + 1),
            None => None,
        }
    }
}

impl Step {
    /// Run this step against the given context. The step returns a context
    /// of the same mode it received, or the error that stops the pipeline.
    /// Under a dry run the outcome is fully determined: the step fails
    /// (with `NoIssueSelected`) exactly when [`sim_step_fails`] says so, and
    /// otherwise appends exactly one description line.
    pub fn run(self, run_type: RunType) -> (r: Result<RunType, StepError>)
        ensures
            r matches Ok(rt) ==> (rt is DryRun <==> run_type is DryRun),
            self is SwitchBranches && run_type.spec_state().issue is Initial ==> (r
                matches Err(e) && e is NoIssueSelected),
            run_type is DryRun ==> match r {
                Ok(rt) => {
                    &&& !sim_step_fails(self, run_type.spec_state().issue is Selected)
                    &&& rt is DryRun
                    &&& rt.spec_lines() == run_type.spec_lines().push(
                        dry_line(self, run_type.spec_state()),
                    )
                    &&& (rt.spec_state().issue is Selected) == sim_selected_after(
                        self,
                        run_type.spec_state().issue is Selected,
                    )
                },
                Err(e) => {
                    &&& sim_step_fails(self, run_type.spec_state().issue is Selected)
                    &&& e is NoIssueSelected
                },
            },
    {
        match self {
            Step::SelectIssueFromBranch => crate::git::select_issue_from_current_branch(
                run_type,
            ),
            Step::SwitchBranches => crate::git::switch_branches(run_type),
            Step::RebaseBranch { to } => crate::git::rebase_branch(to.as_str(), run_type),
        }
    }
}

/// Run a pipeline of steps strictly in order against the context, halting
/// on the first failing step and surfacing its error; later steps never
/// run, and already-applied effects are not rolled back.
///
/// Under a dry run the outcome is pinned exactly: the pipeline fails if and
/// only if [`first_sim_failure`] names a failing step, the surfaced error is
/// that step's (`NoIssueSelected`), and on success every step has appended
/// its one description line.
pub fn run_pipeline(steps: Vec<Step>, run_type: RunType) -> (r: Result<RunType, StepError>)
    ensures
        r matches Ok(rt) ==> (rt is DryRun <==> run_type is DryRun),
        run_type is DryRun ==> match r {
            Ok(rt) => first_sim_failure(steps@, run_type.spec_state().issue is Selected)
                is None && rt is DryRun && rt.spec_lines().len()
                == run_type.spec_lines().len() + steps@.len(),
            Err(e) => first_sim_failure(steps@, run_type.spec_state().issue is Selected)
                is Some && e is NoIssueSelected,
        },
{
    let ghost sel0 = run_type.spec_state().issue is Selected;
    let ghost lines0 = run_type.spec_lines().len() as int;
    let dry = matches!(run_type, RunType::DryRun { .. });
    let mut current = run_type;
    let mut remaining = steps;
    let ghost all_steps = remaining@;
    let mut i: usize = 0;
    let n = remaining.len();
    proof {
        assert(all_steps.skip(0) =~= all_steps);
    }
    while i < n
        invariant
            i <= n,
            n == all_steps.len(),
            remaining@ == all_steps.skip(i as int),
            dry == current is DryRun,
            dry == run_type is DryRun,
            all_steps == steps@,
            sel0 == (run_type.spec_state().issue is Selected),
            lines0 == run_type.spec_lines().len(),
            dry ==> {
                &&& first_sim_failure(all_steps, sel0) == match first_sim_failure(
                    all_steps.skip(i as int),
                    current.spec_state().issue is Selected,
                ) {
                    Some(k) => Some(k + i),
                    None => None::<int>,
                }
                &&& current.spec_lines().len() == lines0 + i
            },
        decreases n - i,
    {
        let ghost cur_sel = current.spec_state().issue is Selected;
        let step = remaining.remove(0);
        let ghost gstep = step;
        proof {
            assert(remaining@ =~= all_steps.skip(i as int + 1));
            assert(all_steps.skip(i as int)[0] == all_steps[i as int]);
            assert(all_steps.skip(i as int).drop_first() =~= all_steps.skip(i as int + 1));
        }
        match step.run(current) {
            Ok(next) => {
                proof {
                    if dry {
                        assert(first_sim_failure(all_steps.skip(i as int), cur_sel)
                            == match first_sim_failure(
                            all_steps.skip(i as int + 1),
                            sim_selected_after(gstep, cur_sel),
                        ) {
                            Some(k) => Some(k + 1),
                            None => None::<int>,
                        });
                    }
                }
                current = next;
            },
            Err(e) => {
                proof {
                    if dry {
                        assert(sim_step_fails(gstep, cur_sel));
                        assert(first_sim_failure(all_steps.skip(i as int), cur_sel)
                            == Some(0int));
                    }
                }
                return Err(e);
            },
        }
        i = i + 1;
    }
    proof {
        if dry {
            assert(all_steps.skip(n as int) =~= Seq::<Step>::empty());
        }
    }
    Ok(current)
}

/// The inner configuration of a release-preparation step.
#[derive(Debug)]
pub struct PrepareRelease {
    /// The path of the changelog file to update.
    pub changelog_path: String,
    /// If set, a pre-release version using this label is wanted.
    pub prerelease_label: Option<String>,
}

/// The changelog path used when a release-preparation step does not name
/// one.
pub fn default_changelog() -> (r: String)
    ensures
        r@ == "CHANGELOG.md"@,
{
    String::from_str("CHANGELOG.md")
}

} // verus!
