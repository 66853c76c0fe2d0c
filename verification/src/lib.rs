//! A release-workflow engine: an ordered pipeline of steps run against a
//! shared workflow state, either for real ("apply") or as a dry run
//! ("simulate"), with a Git subsystem that correlates issues to branches,
//! performs guarded branch switches and rebases, and extracts the commit
//! history since the last stable release tag.

pub mod correlate;
pub mod error;
pub mod git;
pub mod history;
pub mod jira;
pub mod prompt;
pub mod state;
pub mod step;
pub mod strutil;
