use dobby::error::StepError;
use dobby::history::{messages_until_boundary, WalkItem};

fn id(byte: u8) -> Vec<u8> {
    vec![byte; 20]
}

fn commit(byte: u8, message: &str) -> WalkItem {
    WalkItem::Commit {
        id: id(byte),
        message: Some(message.to_string()),
    }
}

#[test]
fn no_boundary_keeps_every_ancestor() {
    let items = vec![commit(1, "third"), commit(2, "second"), commit(3, "first")];
    let kept = messages_until_boundary(items, &None).expect("unbounded walk succeeds");
    assert_eq!(
        kept,
        vec!["third".to_string(), "second".to_string(), "first".to_string()]
    );
}

#[test]
fn boundary_is_exclusive() {
    let items = vec![commit(1, "third"), commit(2, "tagged"), commit(3, "first")];
    let kept = messages_until_boundary(items, &Some(id(2))).expect("bounded walk succeeds");
    assert_eq!(kept, vec!["third".to_string()]);
}

#[test]
fn boundary_stops_the_walk_before_later_items() {
    // Even a faulted item beyond the boundary is never reached.
    let items = vec![commit(1, "newest"), commit(2, "tagged"), WalkItem::Fault];
    let kept = messages_until_boundary(items, &Some(id(2))).expect("bounded walk succeeds");
    assert_eq!(kept, vec!["newest".to_string()]);
}

#[test]
fn boundary_at_head_keeps_nothing() {
    let items = vec![commit(1, "tagged"), commit(2, "older")];
    let kept = messages_until_boundary(items, &Some(id(1))).expect("bounded walk succeeds");
    assert!(kept.is_empty());
}

#[test]
fn missing_commit_is_a_distinct_failure() {
    let items = vec![commit(1, "newest"), WalkItem::Fault, commit(3, "oldest")];
    let result = messages_until_boundary(items, &None);
    assert!(matches!(result, Err(StepError::MissingAncestorCommit)));
}

#[test]
fn non_commit_objects_contribute_no_entry() {
    let items = vec![
        WalkItem::Commit {
            id: id(1),
            message: None,
        },
        commit(2, "real commit"),
    ];
    let kept = messages_until_boundary(items, &None).expect("walk succeeds");
    assert_eq!(kept, vec!["real commit".to_string()]);
}
