use dobby::correlate::Issue;
use dobby::error::StepError;
use dobby::git::{any_pending, switch_branches, StatusEntry};
use dobby::state::{Issue as IssueSelection, RunType, State};
use dobby::step::{run_pipeline, Step};

fn dry_run_with(issue: IssueSelection) -> RunType {
    RunType::DryRun {
        state: State { issue },
        stdout: Vec::new(),
    }
}

fn lines_of(run_type: RunType) -> Vec<String> {
    match run_type {
        RunType::DryRun { stdout, .. } => stdout,
        RunType::Real(_) => panic!("expected a dry run"),
    }
}

#[test]
fn simulated_switch_succeeds_with_selected_issue() {
    let issue = Issue {
        key: "FLOW-5".to_string(),
        summary: "A test issue".to_string(),
    };
    let run_type = dry_run_with(IssueSelection::Selected(issue));
    let result = switch_branches(run_type).expect("dry-run switch must succeed");
    let lines = lines_of(result);
    assert_eq!(
        lines,
        vec!["Would switch to or create a branch named FLOW-5-a-test-issue".to_string()]
    );
}

#[test]
fn simulated_switch_without_issue_fails() {
    let run_type = dry_run_with(IssueSelection::Initial);
    let result = switch_branches(run_type);
    assert!(matches!(result, Err(StepError::NoIssueSelected)));
}

#[test]
fn pipeline_halts_on_first_failure() {
    // Rebase would succeed, the switch fails for want of an issue, and the
    // selection step never runs: if it did, it would select an issue and
    // nothing would fail.
    let steps = vec![
        Step::RebaseBranch {
            to: "main".to_string(),
        },
        Step::SwitchBranches,
        Step::SelectIssueFromBranch,
    ];
    let run_type = dry_run_with(IssueSelection::Initial);
    let result = run_pipeline(steps, run_type);
    assert!(matches!(result, Err(StepError::NoIssueSelected)));
}

#[test]
fn pipeline_runs_every_step_in_order_when_none_fails() {
    let steps = vec![
        Step::SelectIssueFromBranch,
        Step::SwitchBranches,
        Step::RebaseBranch {
            to: "main".to_string(),
        },
    ];
    let run_type = dry_run_with(IssueSelection::Initial);
    let result = run_pipeline(steps, run_type).expect("dry-run pipeline must succeed");
    let lines = lines_of(result);
    assert_eq!(
        lines,
        vec![
            "Would attempt to parse current branch name to select current issue".to_string(),
            "Would switch to or create a branch named 123-fake-issue".to_string(),
            "Would rebase current branch onto main".to_string(),
        ]
    );
}

#[test]
fn simulated_rebase_describes_target() {
    let run_type = dry_run_with(IssueSelection::Initial);
    let result = dobby::git::rebase_branch("release", run_type).expect("dry-run rebase succeeds");
    let lines = lines_of(result);
    assert_eq!(
        lines,
        vec!["Would rebase current branch onto release".to_string()]
    );
}

#[test]
fn simulated_issue_selection_selects_placeholder() {
    let run_type = dry_run_with(IssueSelection::Initial);
    let result = dobby::git::select_issue_from_current_branch(run_type)
        .expect("dry-run selection succeeds");
    match result {
        RunType::DryRun { state, .. } => match state.issue {
            IssueSelection::Selected(issue) => {
                assert_eq!(issue.key, "123");
                assert_eq!(issue.summary, "Fake Issue");
            }
            IssueSelection::Initial => panic!("no issue selected"),
        },
        RunType::Real(_) => panic!("mode flipped"),
    }
}

#[test]
fn pending_change_detection() {
    assert!(!any_pending(&Vec::new()));
    assert!(!any_pending(&vec![StatusEntry {
        decodable: true,
        ignored: Some(true),
    }]));
    assert!(!any_pending(&vec![StatusEntry {
        decodable: false,
        ignored: Some(false),
    }]));
    assert!(!any_pending(&vec![StatusEntry {
        decodable: true,
        ignored: None,
    }]));
    assert!(any_pending(&vec![
        StatusEntry {
            decodable: true,
            ignored: Some(true),
        },
        StatusEntry {
            decodable: true,
            ignored: Some(false),
        },
    ]));
}
