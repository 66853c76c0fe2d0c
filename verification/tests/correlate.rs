use dobby::correlate::{select_issue_from_branch_name, Issue};
use dobby::error::StepError;

#[test]
fn jira_style() {
    let issue =
        select_issue_from_branch_name("ABC-123-some-summary").expect("Failed to parse branch name");

    assert_eq!(
        issue,
        Issue {
            key: "ABC-123".to_string(),
            summary: "some-summary".to_string(),
        }
    );
}

#[test]
fn github_style() {
    let issue =
        select_issue_from_branch_name("123-some-summary").expect("Failed to parse branch name");

    assert_eq!(
        issue,
        Issue {
            key: "123".to_string(),
            summary: "some-summary".to_string(),
        }
    );
}

#[test]
fn no_number() {
    let result = select_issue_from_branch_name("some-summary");

    assert!(result.is_err());
}

#[test]
fn branch_name_from_issue() {
    let issue = Issue {
        key: "FLOW-5".to_string(),
        summary: "A test issue".to_string(),
    };
    let branch_name = dobby::correlate::branch_name_from_issue(&issue);
    assert_eq!(&branch_name, "FLOW-5-a-test-issue");
}

#[test]
fn no_number_error_is_bad_branch_name() {
    let result = select_issue_from_branch_name("some-summary");
    assert!(matches!(result, Err(StepError::BadGitBranchName)));
}

#[test]
fn round_trip_jira_style_key() {
    let issue = Issue {
        key: "ABC-123".to_string(),
        summary: "some-summary".to_string(),
    };
    let name = dobby::correlate::branch_name_from_issue(&issue);
    let parsed = select_issue_from_branch_name(&name).expect("round trip failed");
    assert_eq!(parsed, issue);
}

#[test]
fn round_trip_github_style_key() {
    let issue = Issue {
        key: "42".to_string(),
        summary: "fix-the-bug".to_string(),
    };
    let name = dobby::correlate::branch_name_from_issue(&issue);
    let parsed = select_issue_from_branch_name(&name).expect("round trip failed");
    assert_eq!(parsed, issue);
}

#[test]
fn derivation_lowercases_and_replaces_spaces() {
    let issue = Issue {
        key: "9".to_string(),
        summary: "Mixed CASE with spaces".to_string(),
    };
    assert_eq!(dobby::correlate::branch_name_from_issue(&issue), "9-mixed-case-with-spaces");
}

#[test]
fn empty_summary_round_trip() {
    let issue = Issue {
        key: "7".to_string(),
        summary: String::new(),
    };
    let name = dobby::correlate::branch_name_from_issue(&issue);
    assert_eq!(&name, "7-");
    let parsed = select_issue_from_branch_name(&name).expect("round trip failed");
    assert_eq!(parsed, issue);
}

#[test]
fn numeric_first_segment_wins_over_project_style() {
    let issue = select_issue_from_branch_name("123-456-fix").expect("parse failed");
    assert_eq!(issue.key, "123");
    assert_eq!(issue.summary, "456-fix");
}
