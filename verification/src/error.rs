//! The flat taxonomy of terminal errors a workflow step can report.

use vstd::prelude::*;

verus! {

/// Declares git2's error type, so Git-layer failures can be carried through
/// the library's own error type unchanged.
#[verifier::external_type_specification]
#[verifier::external_body]
pub struct ExGit2Error(git2::Error);

/// Everything that can make a workflow step fail. The pipeline driver halts
/// on the first of these and surfaces it; no step retries internally.
#[derive(Debug)]
pub enum StepError {
    /// A step that needs a selected issue ran while none was selected.
    NoIssueSelected,
    /// The transition named in the step does not exist on the tracker issue.
    InvalidJiraTransition,
    /// The current directory is not inside a Git repository.
    NotAGitRepo,
    /// HEAD is detached or otherwise not a named branch.
    NotOnAGitBranch,
    /// A branch name that fits neither supported issue-key shape.
    BadGitBranchName,
    /// The working tree holds tracked, non-ignored changes.
    UncommittedChanges,
    /// Switching branches failed after HEAD had already been repointed; the
    /// repository may be in an inconsistent position needing manual care.
    IncompleteCheckout(git2::Error),
    /// The commit graph reported a missing object (corrupt or shallow
    /// repository); history extraction stops rather than truncating silently.
    MissingAncestorCommit,
    /// Failed to get a usable selection from the user.
    UserInput,
    /// Any other Git-layer failure, passed through.
    GitError(Option<git2::Error>),
}

} // verus!
