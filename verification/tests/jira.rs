use dobby::error::StepError;
use dobby::jira::{find_transition, get_auth, search_jql, search_url, transition_url, Transition};
use dobby::step::default_changelog;

#[test]
fn auth_header_encodes_credentials() {
    // base64("email:token") == "ZW1haWw6dG9rZW4="
    assert_eq!(get_auth("email", "token"), "Basic ZW1haWw6dG9rZW4=");
}

#[test]
fn jql_combines_status_and_project() {
    assert_eq!(
        search_jql("In Progress", "FLOW"),
        "status = In Progress AND project = FLOW"
    );
}

#[test]
fn endpoint_urls() {
    assert_eq!(
        search_url("https://example.atlassian.net"),
        "https://example.atlassian.net/rest/api/3/search"
    );
    assert_eq!(
        transition_url("https://example.atlassian.net", "FLOW-5"),
        "https://example.atlassian.net/rest/api/3/issue/FLOW-5/transitions"
    );
}

fn transitions() -> Vec<Transition> {
    vec![
        Transition {
            id: "11".to_string(),
            name: "To Do".to_string(),
        },
        Transition {
            id: "21".to_string(),
            name: "Done".to_string(),
        },
    ]
}

#[test]
fn find_transition_by_name() {
    let all = transitions();
    let index = find_transition(&all, "Done").expect("transition exists");
    assert_eq!(index, 1);
    assert_eq!(all[index].id, "21");
}

#[test]
fn missing_transition_is_invalid() {
    let all = transitions();
    let result = find_transition(&all, "In Review");
    assert!(matches!(result, Err(StepError::InvalidJiraTransition)));
}

#[test]
fn changelog_defaults_to_standard_name() {
    assert_eq!(default_changelog(), "CHANGELOG.md");
}
