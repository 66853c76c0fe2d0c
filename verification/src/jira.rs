//! The computable side of the Jira adapter: request authorization, query
//! and URL building, and picking the transition to apply. The HTTP calls
//! themselves live outside the library and hand plain values back.

use vstd::prelude::*;
use vstd::string::StringExecFns;

use crate::error::StepError;

verus! {

/// A Jira workflow transition: its id (what the transition endpoint needs)
/// and its display name (what a step configuration names).
#[derive(Debug, Clone, PartialEq, Eq)]
pub struct Transition {
    pub id: String,
    pub name: String,
}

/// What base64 encoding returns for a string's UTF-8 bytes: a function of
/// the characters alone.
pub uninterp spec fn base64_of(s: Seq<char>) -> Seq<char>;

/// Relies on base64::encode: the standard base64 encoding of the UTF-8
/// bytes of `s`, depending on those bytes alone.
#[verifier::external_body]
fn base64_encode(s: &str) -> (r: String)
    ensures
        r@ == base64_of(s@),
{
    base64::encode(s)
}

/// The HTTP basic-auth header value for a Jira user: `Basic ` followed by
/// the base64 encoding of `email:token`.
pub fn get_auth(email: &str, token: &str) -> (r: String)
    ensures
        r@ == "Basic "@ + base64_of(email@ + ":"@ + token@),
{
    let joined = email.to_owned().concat(":").concat(token);
    let encoded = base64_encode(joined.as_str());
    String::from_str("Basic ").concat(encoded.as_str())
}

/// The JQL query selecting a project's issues in a status.
pub fn search_jql(status: &str, project: &str) -> (r: String)
    ensures
        r@ == "status = "@ + status@ + " AND project = "@ + project@,
{
    String::from_str("status = ").concat(status).concat(" AND project = ").concat(project)
}

/// The search endpoint of a Jira instance.
pub fn search_url(base_url: &str) -> (r: String)
    ensures
        r@ == base_url@ + "/rest/api/3/search"@,
{
    base_url.to_owned().concat("/rest/api/3/search")
}

/// The transitions endpoint for one issue of a Jira instance.
pub fn transition_url(base_url: &str, issue_key: &str) -> (r: String)
    ensures
        r@ == base_url@ + "/rest/api/3/issue/"@ + issue_key@ + "/transitions"@,
{
    base_url.to_owned().concat("/rest/api/3/issue/").concat(issue_key).concat("/transitions")
}

/// The first transition whose display name is `status`, as an index into
/// `transitions`; `InvalidJiraTransition` exactly when none matches.
pub fn find_transition(transitions: &Vec<Transition>, status: &str) -> (r: Result<
    usize,
    StepError,
>)
    ensures
        match r {
            Ok(i) => 0 <= i < transitions@.len() && transitions@[i as int].name@ == status@
                && forall|j: int|
                0 <= j < i ==> (#[trigger] transitions@[j]).name@ != status@,
            Err(e) => e is InvalidJiraTransition && forall|j: int|
                0 <= j < transitions@.len() ==> (#[trigger] transitions@[j]).name@ != status@,
        },
{
    let mut i: usize = 0;
    while i < transitions.len()
        invariant
            i <= transitions@.len(),
            forall|j: int| 0 <= j < i ==> (#[trigger] transitions@[j]).name@ != status@,
        decreases transitions@.len() - i,
    {
        if crate::strutil::str_eq(transitions[i].name.as_str(), status) {
            return Ok(i);
        }
        i = i + 1;
    }
    Err(StepError::InvalidJiraTransition)
}

} // verus!
