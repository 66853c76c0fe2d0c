//! The release-boundary history extractor: the ordered list of commit
//! messages reachable from HEAD back to — but not including — the last
//! stable release tag.
//!
//! The tag name itself comes from the version subsystem; this module builds
//! the `refs/tags/` ref for it, resolves it to a commit id (logging the
//! anomaly and degrading to an unbounded walk when it cannot be resolved),
//! and hands the raw walk — one item per ancestor, carrying its id and, if
//! it resolves to an actual commit, its message — to the verified
//! [`messages_until_boundary`], which performs the boundary-exclusive cut
//! and the message collection under an exact contract. A missing object in
//! the commit graph is the distinct `MissingAncestorCommit` failure, never
//! a silent truncation.

use vstd::prelude::*;
use vstd::string::StringExecFns;
use std::io::Write;

use crate::error::StepError;

verus! {

#[verifier::external_type_specification]
#[verifier::external_body]
pub struct ExGixRepository(gix::Repository);

/// One step of the ancestor walk: an ancestor with its id and message, or
/// the point at which the walk itself failed.
pub enum WalkItem {
    /// The next ancestor, in traversal order. `message` is None when the
    /// object is absent or is no commit (an annotated tag, for instance):
    /// such an item contributes no entry to the extracted history.
    Commit { id: Vec<u8>, message: Option<String> },
    /// The walk reported a missing object and stopped here.
    Fault,
}

/// Relies on gix::open: opens the repository at the current working
/// directory, failing when there is none.
#[verifier::external_body]
fn open_gix_repo() -> Result<gix::Repository, ()> {
    match gix::open(".") {
        Ok(repo) => Ok(repo),
        Err(_) => Err(()),
    }
}

/// Relies on writing to std::io::stderr (via writeln): reports one
/// diagnostic line.
#[verifier::external_body]
fn warn_line(s: &str) {
    let _ = writeln!(std::io::stderr(), "{}", s);
}

/// Relies on gix::Repository::find_reference and
/// gix::Reference::into_fully_peeled_id: the commit id the named ref peels
/// to, or None when it cannot be found or peeled.
#[verifier::external_body]
fn resolve_ref_id(repo: &gix::Repository, ref_name: &str) -> Option<Vec<u8>> {
    let reference = repo.find_reference(ref_name).ok()?;
    let id = reference.into_fully_peeled_id().ok()?;
    Some(id.detach().as_slice().to_vec())
}

/// Relies on gix::Repository::find_object, Object::try_into_commit and
/// Commit::message_raw: the raw message of the commit with the given id, or
/// None when the object is absent or is not a commit.
#[verifier::external_body]
fn commit_message(repo: &gix::Repository, id: &Vec<u8>) -> Option<String> {
    let oid = gix::ObjectId::try_from(id.as_slice()).ok()?;
    let object = repo.find_object(oid).ok()?;
    let commit = object.try_into_commit().ok()?;
    Some(commit.message_raw().ok()?.to_string())
}

/// Relies on gix::Repository::head_commit and the ancestors walk of
/// gix::revision::walk (and, through [`commit_message`], on find_object,
/// try_into_commit and message_raw): the ancestors of HEAD in traversal
/// order, each with its id and message; a walk failure becomes a trailing
/// `Fault` item, and a HEAD that does not point at a commit is `Err`.
#[verifier::external_body]
fn head_ancestor_items(repo: &gix::Repository) -> Result<Vec<WalkItem>, ()> {
    let head = repo.head_commit().map_err(|_| ())?;
    let walk = head.ancestors().all().map_err(|_| ())?;
    let mut items = Vec::new();
    for entry in walk {
        match entry {
            Ok(info) => {
                let id = info.id.as_slice().to_vec();
                let message = commit_message(repo, &id);
                items.push(WalkItem::Commit { id, message });
            },
            Err(_) => { items.push(WalkItem::Fault); break; },
        }
    }
    Ok(items)
}

/// The boundary as the walk sees it: the id bytes of the last stable
/// release tag's commit, if one was resolved.
pub open spec fn spec_boundary(b: Option<Vec<u8>>) -> Option<Seq<u8>> {
    match b {
        Some(t) => Some(t@),
        None => None,
    }
}

/// What one kept walk item contributes to the history: its message, or
/// nothing when the object was no commit.
pub open spec fn spec_entry(message: Option<String>) -> Seq<Seq<char>> {
    match message {
        Some(m) => seq![m@],
        None => Seq::empty(),
    }
}

/// The messages the extractor returns: those of every item before the first
/// occurrence of the boundary id (exclusive; all of them when there is no
/// boundary), in traversal order, skipping items that are no commits — or
/// `Err` when the walk faulted before reaching the boundary.
pub open spec fn spec_messages_until(items: Seq<WalkItem>, b: Option<Seq<u8>>) -> Result<
    Seq<Seq<char>>,
    (),
>
    decreases items.len(),
{
    if items.len() == 0 {
        Ok(Seq::empty())
    } else {
        match items[0] {
            WalkItem::Fault => Err(()),
            WalkItem::Commit { id, message } => if b matches Some(t) && id@ == t {
                Ok(Seq::empty())
            } else {
                match spec_messages_until(items.drop_first(), b) {
                    Ok(rest) => Ok(spec_entry(message) + rest),
                    Err(e) => Err(e),
                }
            },
        }
    }
}

/// The messages of a walk taken whole, in order, skipping non-commits.
pub open spec fn spec_all_messages(items: Seq<WalkItem>) -> Seq<Seq<char>>
    decreases items.len(),
{
    if items.len() == 0 {
        Seq::empty()
    } else {
        match items[0] {
            WalkItem::Fault => spec_all_messages(items.drop_first()),
            WalkItem::Commit { id: _, message } => spec_entry(message) + spec_all_messages(
                items.drop_first(),
            ),
        }
    }
}

/// With no boundary and no fault, history extraction returns the message of
/// every ancestor, in traversal order.
pub proof fn lemma_history_unbounded(items: Seq<WalkItem>)
    requires
        forall|i: int| 0 <= i < items.len() ==> #[trigger] items[i] is Commit,
    ensures
        spec_messages_until(items, None) == Ok::<Seq<Seq<char>>, ()>(spec_all_messages(items)),
    decreases items.len(),
{
    if items.len() > 0 {
        assert(items[0] is Commit);
        assert forall|i: int|
            0 <= i < items.drop_first().len() implies #[trigger] items.drop_first()[i]
            is Commit by {
            assert(items.drop_first()[i] == items[i + 1]);
        }
        lemma_history_unbounded(items.drop_first());
    }
}

/// With the boundary first occurring at index `k` of a fault-free prefix,
/// history extraction returns exactly the messages of the items before `k`:
/// the boundary commit's own message is never included, and nothing past
/// the boundary is looked at, whatever stands beyond it.
pub proof fn lemma_history_bounded(items: Seq<WalkItem>, t: Seq<u8>, k: int)
    requires
        0 <= k < items.len(),
        items[k] matches WalkItem::Commit { id, .. } && id@ == t,
        forall|j: int|
            0 <= j < k ==> ((#[trigger] items[j]) matches WalkItem::Commit { id, .. } && id@
                != t),
    ensures
        spec_messages_until(items, Some(t)) == Ok::<Seq<Seq<char>>, ()>(
            spec_all_messages(items.take(k)),
        ),
    decreases k,
{
    if k == 0 {
        assert(spec_all_messages(items.take(0)) =~= Seq::<Seq<char>>::empty());
    } else {
        assert((items[0] matches WalkItem::Commit { id, .. } && id@ != t));
        lemma_history_bounded(items.drop_first(), t, k - 1);
        assert(items.drop_first().take(k - 1) =~= items.take(k).drop_first());
        assert(items.take(k)[0] == items[0]);
    }
}

/// Whether two byte vectors hold the same bytes.
fn bytes_eq(a: &Vec<u8>, b: &Vec<u8>) -> (r: bool)
    ensures
        r == (a@ == b@),
{
    if a.len() != b.len() {
        return false;
    }
    let mut i: usize = 0;
    while i < a.len()
        invariant
            i <= a@.len(),
            a@.len() == b@.len(),
            forall|j: int| 0 <= j < i ==> a@[j] == b@[j],
        decreases a@.len() - i,
    {
        if a[i] != b[i] {
            return false;
        }
        i = i + 1;
    }
    proof {
        assert(a@ =~= b@);
    }
    true
}

/// Everything the extractor decides once the walk is in hand: cut it at the
/// boundary (exclusive) and collect the kept messages in order, exactly as
/// [`spec_messages_until`] states it, or fail with the distinct
/// `MissingAncestorCommit` when the walk faulted before the boundary.
#[verifier::rlimit(60)]
pub fn messages_until_boundary(items: Vec<WalkItem>, boundary: &Option<Vec<u8>>) -> (r: Result<
    Vec<String>,
    StepError,
>)
    ensures
        match spec_messages_until(items@, spec_boundary(*boundary)) {
            Ok(msgs) => r matches Ok(v) && v@.map_values(|s: String| s@) == msgs,
            Err(()) => r matches Err(e) && e is MissingAncestorCommit,
        },
{
    let ghost all_items = items@;
    let ghost sb = spec_boundary(*boundary);
    let mut out: Vec<String> = Vec::new();
    let mut remaining = items;
    let mut i: usize = 0;
    let n = remaining.len();
    proof {
        assert(all_items.skip(0) =~= all_items);
        assert(out@.map_values(|s: String| s@) =~= Seq::<Seq<char>>::empty());
    }
    while i < n
        invariant
            i <= n,
            n == all_items.len(),
            remaining@ == all_items.skip(i as int),
            all_items == items@,
            sb == spec_boundary(*boundary),
            spec_messages_until(all_items, sb) == match spec_messages_until(
                all_items.skip(i as int),
                sb,
            ) {
                Ok(rest) => Ok::<Seq<Seq<char>>, ()>(out@.map_values(|s: String| s@) + rest),
                Err(()) => Err::<Seq<Seq<char>>, ()>(()),
            },
        decreases n - i,
    {
        let item = remaining.remove(0);
        proof {
            assert(remaining@ =~= all_items.skip(i as int + 1));
            assert(all_items.skip(i as int)[0] == all_items[i as int]);
            assert(all_items.skip(i as int).drop_first() =~= all_items.skip(i as int + 1));
        }
        match item {
            WalkItem::Fault => {
                return Err(StepError::MissingAncestorCommit);
            },
            WalkItem::Commit { id, message } => {
                let at_boundary = match boundary {
                    Some(t) => bytes_eq(&id, t),
                    None => false,
                };
                let ghost gmessage = message;
                proof {
                    let om = out@.map_values(|s: String| s@);
                    if at_boundary {
                        assert(om + Seq::<Seq<char>>::empty() =~= om);
                    } else {
                        match spec_messages_until(all_items.skip(i as int + 1), sb) {
                            Ok(rest) => {
                                match gmessage {
                                    Some(m) => {
                                        crate::strutil::lemma_map_values_push(
                                            out@,
                                            m,
                                            |s: String| s@,
                                        );
                                        assert(om.push(m@) + rest =~= om + (seq![m@] + rest));
                                    },
                                    None => {
                                        assert(om + (Seq::<Seq<char>>::empty() + rest) =~= om
                                            + rest);
                                    },
                                }
                            },
                            Err(()) => {},
                        }
                    }
                }
                if at_boundary {
                    return Ok(out);
                }
                match message {
                    Some(m) => out.push(m),
                    None => (),
                }
            },
        }
        i = i + 1;
    }
    proof {
        assert(all_items.skip(n as int) =~= Seq::<WalkItem>::empty());
        let om = out@.map_values(|s: String| s@);
        assert(om + Seq::<Seq<char>>::empty() =~= om);
    }
    Ok(out)
}

/// Produce the ordered list of commit messages reachable from HEAD back to
/// (but not including) the commit tagged with the last stable version.
///
/// `stable_tag` is the tag name the version subsystem computed, or None
/// when no stable version exists yet; in the latter case, and when the tag
/// cannot be resolved to a commit (the anomaly is reported on standard
/// error), every ancestor of HEAD is processed — a legitimate first-release
/// condition, not an error. The walk itself comes from the repository, so
/// this function only composes the trusted reads; everything decided after
/// them — the boundary-exclusive cut, the skipping of non-commits, the
/// order of the kept messages — is [`messages_until_boundary`], whose
/// contract is exact.
pub fn get_commit_messages_after_last_stable_version(stable_tag: &Option<String>) -> (r: Result<
    Vec<String>,
    StepError,
>)
    ensures
        r matches Err(e) ==> (e is NotAGitRepo || e is GitError || e
            is MissingAncestorCommit),
{
    let repo = match open_gix_repo() {
        Ok(r) => r,
        Err(()) => return Err(StepError::NotAGitRepo),
    };
    let boundary: Option<Vec<u8>> = match stable_tag {
        Some(tag) => {
            let full_ref = String::from_str("refs/tags/").concat(tag.as_str());
            let resolved = resolve_ref_id(&repo, full_ref.as_str());
            if resolved.is_none() {
                warn_line("Found a stable version tag, but could not resolve it to a commit; processing all commits.");
            }
            resolved
        },
        None => {
            warn_line("No stable version tag found, processing all commits.");
            None
        },
    };
    let items = match head_ancestor_items(&repo) {
        Ok(v) => v,
        Err(()) => return Err(StepError::GitError(None)),
    };
    messages_until_boundary(items, &boundary)
}

} // verus!
