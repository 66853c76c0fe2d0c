//! The Git subsystem: guarded branch switches, rebases, issue selection from
//! the current branch, and staging of files.
//!
//! Every repository access goes through a small trusted wrapper around git2;
//! the decisions around those calls — the dual-mode contract, the
//! uncommitted-changes guard, the error taxonomy — are verified.

use vstd::prelude::*;
use vstd::string::StringExecFns;

use crate::correlate::{branch_name_from_issue, derived_branch_name, Issue};
use crate::error::StepError;
use crate::prompt::select;
use crate::state::RunType;

verus! {

#[verifier::external_type_specification]
#[verifier::external_body]
pub struct ExGit2Repository(git2::Repository);

#[verifier::external_type_specification]
#[verifier::external_body]
pub struct ExGit2Branch<'a>(git2::Branch<'a>);

#[verifier::external_type_specification]
#[verifier::external_body]
pub struct ExGit2Index(git2::Index);

/// Relies on git2::Repository::open: opens the repository at the current
/// working directory, failing when there is none.
#[verifier::external_body]
fn open_repo() -> Result<git2::Repository, git2::Error> {
    git2::Repository::open(".")
}

/// Relies on git2::Repository::find_branch: looks up a local branch by its
/// exact name.
#[verifier::external_body]
fn find_local_branch<'r>(repo: &'r git2::Repository, name: &str) -> Result<
    git2::Branch<'r>,
    git2::Error,
> {
    repo.find_branch(name, git2::BranchType::Local)
}

/// Relies on git2::Repository::branches: the local branches, skipping
/// entries the listing itself reports as failed.
#[verifier::external_body]
fn local_branches<'r>(repo: &'r git2::Repository) -> Result<Vec<git2::Branch<'r>>, git2::Error> {
    Ok(repo.branches(Some(git2::BranchType::Local))?.filter_map(
        |entry| entry.ok().map(|(branch, _)| branch),
    ).collect())
}

/// Relies on git2::Branch::name: the branch's short name, when it has a
/// valid UTF-8 one.
#[verifier::external_body]
fn branch_name_of(branch: &git2::Branch<'_>) -> Option<String> {
    match branch.name() {
        Ok(Some(name)) => Some(String::from(name)),
        _ => None,
    }
}

/// Relies on git2::Branch::get and git2::Reference::name: the full ref name
/// of the branch, when it is valid UTF-8.
#[verifier::external_body]
fn branch_ref_name(branch: &git2::Branch<'_>) -> Option<String> {
    branch.get().name().ok().map(String::from)
}

/// Relies on git2::Repository::branch and git2::Reference::peel_to_commit:
/// creates a branch with the given name at the tip commit of `base`.
#[verifier::external_body]
fn create_branch_at<'r>(
    repo: &'r git2::Repository,
    name: &str,
    base: &git2::Branch<'_>,
) -> Result<git2::Branch<'r>, git2::Error> {
    repo.branch(name, &base.get().peel_to_commit()?, false)
}

/// Relies on git2::Repository::statuses: one entry per working-tree status
/// entry, holding its path when that is valid UTF-8.
#[verifier::external_body]
fn status_paths(repo: &git2::Repository) -> Result<Vec<Option<String>>, git2::Error> {
    let statuses = repo.statuses(None)?;
    Ok(statuses.iter().map(
        |entry| String::from_utf8(Vec::from(entry.path_bytes())).ok(),
    ).collect())
}

/// Relies on git2::Repository::status_should_ignore: whether the ignore
/// rules cover the given path.
#[verifier::external_body]
fn status_should_ignore(repo: &git2::Repository, path: &str) -> Result<bool, git2::Error> {
    repo.status_should_ignore(path.as_ref())
}

/// Relies on git2::Repository::set_head: repoints HEAD at the given ref.
#[verifier::external_body]
fn set_head_ref(repo: &git2::Repository, ref_name: &str) -> Result<(), git2::Error> {
    repo.set_head(ref_name)
}

/// Relies on git2::Repository::checkout_head: forces a checkout that
/// overwrites working-tree files to match HEAD.
#[verifier::external_body]
fn checkout_head_force(repo: &git2::Repository) -> Result<(), git2::Error> {
    let mut builder = git2::build::CheckoutBuilder::new();
    builder.force();
    repo.checkout_head(Some(&mut builder))
}

/// Relies on git2::Repository::head and git2::Reference::shorthand: the
/// short name of the branch HEAD points at, or None when HEAD is detached
/// or unnamed.
#[verifier::external_body]
fn head_shorthand(repo: &git2::Repository) -> Result<Option<String>, git2::Error> {
    Ok(repo.head()?.shorthand().ok().map(String::from))
}

/// Relies on git2::Repository::rebase (with reference_to_annotated_commit
/// and Rebase::finish): rebases HEAD onto the tip of `target`, finishing
/// without interactive conflict resolution.
#[verifier::external_body]
fn rebase_head_onto(repo: &git2::Repository, target: &git2::Branch<'_>) -> Result<
    (),
    git2::Error,
> {
    let head = repo.head()?;
    let target_commit = repo.reference_to_annotated_commit(target.get())?;
    let head_commit = repo.reference_to_annotated_commit(&head)?;
    repo.rebase(Some(&target_commit), None, Some(&head_commit), None)?.finish(None)?;
    Ok(())
}

/// Relies on git2::Repository::remotes, find_remote and Remote::url: the
/// URL of the repository's first remote, if any.
#[verifier::external_body]
fn first_remote_url(repo: &git2::Repository) -> Option<String> {
    let remotes = repo.remotes().ok()?;
    let name = remotes.get(0).ok().flatten()?;
    repo.find_remote(name).ok().and_then(|remote| remote.url().ok().map(String::from))
}

/// Relies on git2::Repository::index: the repository's index.
#[verifier::external_body]
fn repo_index(repo: &git2::Repository) -> Result<git2::Index, git2::Error> {
    repo.index()
}

/// Relies on git2::Index::add_path: stages the file at the given path.
#[verifier::external_body]
fn index_add_path(index: &mut git2::Index, path: &str) -> Result<(), git2::Error> {
    index.add_path(std::path::Path::new(path))
}

/// Relies on git2::Index::write: writes the index back to disk.
#[verifier::external_body]
fn index_write(index: &mut git2::Index) -> Result<(), git2::Error> {
    index.write()
}

/// One working-tree status entry, reduced to what the uncommitted-changes
/// guard reads: whether its path was decodable, and what the ignore rules
/// said about it (None when the ignore check itself failed).
pub struct StatusEntry {
    pub decodable: bool,
    pub ignored: Option<bool>,
}

impl StatusEntry {
    /// A real pending change: a decodable path that the ignore rules
    /// affirmatively do not cover.
    pub open spec fn is_pending(self) -> bool {
        self.decodable && self.ignored == Some(false)
    }
}

/// Whether any status entry is a real pending change. This is the whole
/// decision behind the `UncommittedChanges` guard: the switch aborts, before
/// HEAD moves, exactly when this returns true.
pub fn any_pending(entries: &Vec<StatusEntry>) -> (r: bool)
    ensures
        r == exists|i: int| 0 <= i < entries@.len() && (#[trigger] entries@[i]).is_pending(),
{
    let mut i: usize = 0;
    while i < entries.len()
        invariant
            i <= entries@.len(),
            forall|j: int| 0 <= j < i ==> !(#[trigger] entries@[j]).is_pending(),
        decreases entries@.len() - i,
    {
        let pending = entries[i].decodable && match entries[i].ignored {
            Some(b) => !b,
            None => false,
        };
        if pending {
            return true;
        }
        i = i + 1;
    }
    false
}

/// Switch HEAD to `branch`: first enumerate the working-tree status entries
/// and abort with `UncommittedChanges` if any is a real pending change —
/// before HEAD moves — then repoint HEAD at the branch's ref and force a
/// checkout. A checkout failure after HEAD moved is the distinct
/// `IncompleteCheckout`.
fn switch_to_branch(repo: &git2::Repository, branch: &git2::Branch<'_>) -> (r: Result<
    (),
    StepError,
>)
    ensures
        r matches Err(e) ==> (e is UncommittedChanges || e is BadGitBranchName || e
            is IncompleteCheckout || e is GitError),
{
    let raw = match status_paths(repo) {
        Ok(v) => v,
        Err(e) => return Err(StepError::GitError(Some(e))),
    };
    let mut entries: Vec<StatusEntry> = Vec::new();
    let mut i: usize = 0;
    while i < raw.len()
        decreases raw@.len() - i,
    {
        let ignored: Option<bool> = match &raw[i] {
            Some(path) => match status_should_ignore(repo, path.as_str()) {
                Ok(b) => Some(b),
                Err(_) => None,
            },
            None => None,
        };
        let decodable = raw[i].is_some();
        entries.push(StatusEntry { decodable, ignored });
        i = i + 1;
    }
    switch_guarded(repo, branch, &entries)
}

/// The guarded part of a branch switch, over the status entries already
/// gathered: it fails with `UncommittedChanges` — before HEAD moves — if
/// and only if some entry is a real pending change; only then does it
/// repoint HEAD and force the checkout, whose failure after HEAD moved is
/// the distinct `IncompleteCheckout`.
fn switch_guarded(
    repo: &git2::Repository,
    branch: &git2::Branch<'_>,
    entries: &Vec<StatusEntry>,
) -> (r: Result<(), StepError>)
    ensures
        (exists|i: int| 0 <= i < entries@.len() && (#[trigger] entries@[i]).is_pending())
            <==> (r matches Err(e) && e is UncommittedChanges),
        r matches Err(e) ==> (e is UncommittedChanges || e is BadGitBranchName || e
            is IncompleteCheckout || e is GitError),
{
    if any_pending(entries) {
        return Err(StepError::UncommittedChanges);
    }
    let ref_name = match branch_ref_name(branch) {
        Some(n) => n,
        None => return Err(StepError::BadGitBranchName),
    };
    match set_head_ref(repo, ref_name.as_str()) {
        Ok(()) => (),
        Err(e) => return Err(StepError::GitError(Some(e))),
    }
    match checkout_head_force(repo) {
        Ok(()) => Ok(()),
        Err(e) => Err(StepError::IncompleteCheckout(e)),
    }
}

/// The local branches of the repository.
fn get_all_branches<'r>(repo: &'r git2::Repository) -> (r: Result<
    Vec<git2::Branch<'r>>,
    StepError,
>)
    ensures
        r matches Err(e) ==> e is GitError,
{
    match local_branches(repo) {
        Ok(v) => Ok(v),
        Err(e) => Err(StepError::GitError(Some(e))),
    }
}

/// Let the user pick one of the given branches by name.
fn select_branch<'r>(branches: Vec<git2::Branch<'r>>, prompt: &str) -> (r: Result<
    git2::Branch<'r>,
    StepError,
>)
    ensures
        r matches Err(e) ==> (e is UserInput || e is BadGitBranchName),
{
    let mut names: Vec<String> = Vec::new();
    let mut i: usize = 0;
    while i < branches.len()
        decreases branches@.len() - i,
    {
        match branch_name_of(&branches[i]) {
            Some(name) => names.push(name),
            None => (),
        }
        i = i + 1;
    }
    let chosen = select(&names, prompt)?;
    let mut branches = branches;
    let mut j: usize = 0;
    while j < branches.len()
        decreases branches@.len() - j,
    {
        let matches_chosen = match branch_name_of(&branches[j]) {
            Some(name) => name == chosen,
            None => false,
        };
        if matches_chosen {
            return Ok(branches.remove(j));
        }
        j = j + 1;
    }
    Err(StepError::BadGitBranchName)
}

/// Create a branch with the given name based on the tip of `branch`.
fn create_branch<'r>(
    repo: &'r git2::Repository,
    name: &str,
    branch: &git2::Branch<'_>,
) -> (r: Result<git2::Branch<'r>, StepError>)
    ensures
        r matches Err(e) ==> e is GitError,
{
    match create_branch_at(repo, name, branch) {
        Ok(b) => Ok(b),
        Err(e) => Err(StepError::GitError(Some(e))),
    }
}

/// Based on the selected issue, either checks out an existing branch
/// matching the derived name or creates a new one, prompting for which
/// branch to base it on.
///
/// Failing when no issue is selected depends only on the state, so it is
/// identical in both modes. Under a dry run nothing touches the repository:
/// with an issue selected the call always succeeds, leaves the state
/// unchanged, and appends exactly one description line.
pub fn switch_branches(run_type: RunType) -> (r: Result<RunType, StepError>)
    ensures
        r matches Ok(rt) ==> (rt is DryRun <==> run_type is DryRun),
        r matches Err(e) ==> (e is NoIssueSelected || e is NotAGitRepo || e is UserInput || e
            is BadGitBranchName || e is UncommittedChanges || e is IncompleteCheckout || e
            is GitError),
        (run_type.spec_state().issue is Initial) <==> (r matches Err(e) && e
            is NoIssueSelected),
        run_type is DryRun ==> match run_type.spec_state().issue {
            crate::state::Issue::Initial => r matches Err(e) && e is NoIssueSelected,
            crate::state::Issue::Selected(iss) => r matches Ok(rt) && rt is DryRun
                && rt.spec_state() == run_type.spec_state() && rt.spec_lines()
                == run_type.spec_lines().push(
                "Would switch to or create a branch named "@ + derived_branch_name(
                    iss.key@,
                    iss.summary@,
                ),
            ),
        },
        !(run_type is DryRun) ==> (r matches Ok(rt) ==> rt.spec_state()
            == run_type.spec_state()),
{
    let (state, dry_run_stdout) = run_type.decompose();
    let issue = match &state.issue {
        crate::state::Issue::Initial => {
            return Err(StepError::NoIssueSelected);
        },
        crate::state::Issue::Selected(issue) => issue,
    };
    let new_branch_name = branch_name_from_issue(issue);
    if let Some(mut stdout) = dry_run_stdout {
        let line = String::from_str("Would switch to or create a branch named ").concat(
            new_branch_name.as_str(),
        );
        proof {
            crate::strutil::lemma_map_values_push(stdout@, line, |s: String| s@);
        }
        stdout.push(line);
        return Ok(RunType::DryRun { state, stdout });
    }
    let repo = match open_repo() {
        Ok(r) => r,
        Err(_) => return Err(StepError::NotAGitRepo),
    };
    let branches = get_all_branches(&repo)?;
    match find_local_branch(&repo, new_branch_name.as_str()) {
        Ok(existing) => {
            switch_to_branch(&repo, &existing)?;
        },
        Err(_) => {
            let base = select_branch(branches, "Which branch do you want to base off of?")?;
            let new_branch = create_branch(&repo, new_branch_name.as_str(), &base)?;
            switch_to_branch(&repo, &new_branch)?;
        },
    }
    Ok(RunType::Real(state))
}

/// Rebase the current branch onto the branch named `to`, then perform the
/// same guarded switch onto it. Under a dry run nothing touches the
/// repository: the call appends exactly one description line and succeeds.
pub fn rebase_branch(to: &str, run_type: RunType) -> (r: Result<RunType, StepError>)
    ensures
        r matches Ok(rt) ==> (rt is DryRun <==> run_type is DryRun),
        r matches Err(e) ==> (e is NotAGitRepo || e is GitError || e is UncommittedChanges || e
            is BadGitBranchName || e is IncompleteCheckout),
        run_type is DryRun ==> (r matches Ok(rt) && rt is DryRun && rt.spec_state()
            == run_type.spec_state() && rt.spec_lines() == run_type.spec_lines().push(
            "Would rebase current branch onto "@ + to@,
        )),
        r matches Ok(rt) ==> rt.spec_state() == run_type.spec_state(),
{
    match run_type {
        RunType::DryRun { state, stdout } => {
            let mut stdout = stdout;
            let line = String::from_str("Would rebase current branch onto ").concat(to);
            proof {
                crate::strutil::lemma_map_values_push(stdout@, line, |s: String| s@);
            }
            stdout.push(line);
            Ok(RunType::DryRun { state, stdout })
        },
        RunType::Real(state) => {
            let repo = match open_repo() {
                Ok(r) => r,
                Err(_) => return Err(StepError::NotAGitRepo),
            };
            let target_branch = match find_local_branch(&repo, to) {
                Ok(b) => b,
                Err(e) => return Err(StepError::GitError(Some(e))),
            };
            match rebase_head_onto(&repo, &target_branch) {
                Ok(()) => (),
                Err(e) => return Err(StepError::GitError(Some(e))),
            }
            switch_to_branch(&repo, &target_branch)?;
            Ok(RunType::Real(state))
        },
    }
}

/// Select the current issue by parsing the name of the branch HEAD points
/// at. Under a dry run no repository read happens: a fixed placeholder
/// issue is selected so later simulated steps have something to describe.
pub fn select_issue_from_current_branch(run_type: RunType) -> (r: Result<RunType, StepError>)
    ensures
        r matches Ok(rt) ==> (rt is DryRun <==> run_type is DryRun),
        r matches Ok(rt) ==> rt.spec_state().issue is Selected,
        r matches Err(e) ==> (e is NotAGitRepo || e is NotOnAGitBranch || e
            is BadGitBranchName || e is GitError),
        run_type is DryRun ==> (r matches Ok(rt) && rt is DryRun && rt.spec_lines()
            == run_type.spec_lines().push(
            "Would attempt to parse current branch name to select current issue"@,
        ) && (rt.spec_state().issue matches crate::state::Issue::Selected(iss) && iss.key@
            == "123"@ && iss.summary@ == "Fake Issue"@)),
{
    match run_type {
        RunType::DryRun { state, stdout } => {
            let mut state = state;
            let mut stdout = stdout;
            let line = String::from_str(
                "Would attempt to parse current branch name to select current issue",
            );
            proof {
                crate::strutil::lemma_map_values_push(stdout@, line, |s: String| s@);
            }
            stdout.push(line);
            state.issue = crate::state::Issue::Selected(
                Issue { key: String::from_str("123"), summary: String::from_str("Fake Issue") },
            );
            Ok(RunType::DryRun { state, stdout })
        },
        RunType::Real(state) => {
            let repo = match open_repo() {
                Ok(r) => r,
                Err(_) => return Err(StepError::NotAGitRepo),
            };
            let short = match head_shorthand(&repo) {
                Ok(Some(name)) => name,
                Ok(None) => return Err(StepError::NotOnAGitBranch),
                Err(e) => return Err(StepError::GitError(Some(e))),
            };
            let issue = crate::correlate::select_issue_from_branch_name(short.as_str())?;
            let mut state = state;
            state.issue = crate::state::Issue::Selected(issue);
            Ok(RunType::Real(state))
        },
    }
}

/// The URL of the first Git remote of the repository at the current
/// directory, if any.
pub fn get_first_remote() -> Option<String> {
    match open_repo() {
        Ok(repo) => first_remote_url(&repo),
        Err(_) => None,
    }
}

/// Stage the named files in the repository's index, to be committed later.
pub fn add_files(file_names: &Vec<String>) -> (r: Result<(), StepError>)
    ensures
        r matches Err(e) ==> (e is NotAGitRepo || e is GitError),
{
    let repo = match open_repo() {
        Ok(r) => r,
        Err(_) => return Err(StepError::NotAGitRepo),
    };
    let mut index = match repo_index(&repo) {
        Ok(ix) => ix,
        Err(e) => return Err(StepError::GitError(Some(e))),
    };
    let mut i: usize = 0;
    while i < file_names.len()
        decreases file_names@.len() - i,
    {
        match index_add_path(&mut index, file_names[i].as_str()) {
            Ok(()) => (),
            Err(e) => return Err(StepError::GitError(Some(e))),
        }
        i = i + 1;
    }
    match index_write(&mut index) {
        Ok(()) => Ok(()),
        Err(e) => Err(StepError::GitError(Some(e))),
    }
}

} // verus!
