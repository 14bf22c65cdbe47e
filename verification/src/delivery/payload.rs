//! The transport-neutral message a delivery writes: who sent it, to whom,
//! and who else it went to, every party by canonical `session@namespace` id
//! so a recipient in any namespace can address a reply. The receiving
//! transport renders it; nothing here is pane text.
use vstd::prelude::*;
use vstd::string::*;

use crate::configuration::{name_view, BundleConfiguration, BundleMember};
use crate::delivery::results::{text_opt, AsyncDeliveryTask};
use crate::errors::{error_view, one_detail, relay_error, text_detail, text_field, RelayError, RelayErrorView};
use crate::identity::{bare_session_id, canonical_session_id, spec_bare, spec_canonical};
use crate::operations::{find_member, member_id};
use crate::seqs::{first_index, lemma_filter_step};
use crate::text::str_eq;

verus! {

/// A party to a message: its canonical id and, where known, its display name.
#[derive(Debug)]
pub struct AddressIdentity {
    pub session_name: String,
    pub display_name: Option<String>,
}

/// The message one delivery writes.
#[derive(Debug)]
pub struct DeliveryMessage {
    pub body: String,
    pub created_at: String,
    pub namespace: String,
    pub sender: AddressIdentity,
    pub target: AddressIdentity,
    pub cc: Vec<AddressIdentity>,
    pub authenticated_identity: Option<String>,
}

/// Whether a recipient id is not `target`.
pub open spec fn other_than(target: Seq<char>) -> spec_fn(Seq<char>) -> bool {
    |s: Seq<char>| s != target
}

/// The task's own target, by canonical id.
pub open spec fn canonical_target(task: AsyncDeliveryTask) -> Seq<char> {
    spec_canonical(task.target_session@, task.bundle_name@)
}

/// The task's co-recipients: every recipient but its own target, in order.
pub open spec fn spec_co_recipients(task: AsyncDeliveryTask) -> Seq<Seq<char>> {
    task.all_target_sessions@.map_values(|s: String| s@).filter(other_than(canonical_target(task)))
}

/// The co-recipients of `task`, by canonical id.
pub fn co_recipient_sessions(task: &AsyncDeliveryTask) -> (cc: Vec<String>)
    ensures
        cc@.map_values(|s: String| s@) == spec_co_recipients(*task),
{
    let target = canonical_session_id(task.target_session.as_str(), task.bundle_name.as_str());
    let ghost all = task.all_target_sessions@.map_values(|s: String| s@);
    let ghost keep = other_than(target@);
    let mut cc: Vec<String> = Vec::new();
    let mut i: usize = 0;
    while i < task.all_target_sessions.len()
        invariant
            i <= task.all_target_sessions@.len(),
            all == task.all_target_sessions@.map_values(|s: String| s@),
            keep == other_than(target@),
            target@ == canonical_target(*task),
            cc@.map_values(|s: String| s@) == all.subrange(0, i as int).filter(keep),
        decreases task.all_target_sessions@.len() - i,
    {
        proof {
            lemma_filter_step(all, keep, i as int);
        }
        let ghost before = cc@.map_values(|s: String| s@);
        assert(all[i as int] == task.all_target_sessions@[i as int]@);
        if !str_eq(task.all_target_sessions[i].as_str(), target.as_str()) {
            cc.push(task.all_target_sessions[i].clone());
            assert(cc@.map_values(|s: String| s@) =~= before.push(all[i as int]));
        }
        i = i + 1;
    }
    assert(all.subrange(0, all.len() as int) =~= all);
    cc
}

/// The display name a co-recipient carries: that of the member of the
/// delivery bundle it names, if any; co-recipients elsewhere carry none.
pub open spec fn cc_display_name(bundle: BundleConfiguration, session: Seq<char>) -> Option<Seq<char>> {
    let local = spec_bare(session, bundle.bundle_name@);
    let m = first_index(bundle.members@, member_id(local));
    if m >= 0 {
        name_view(bundle.members@[m].name)
    } else {
        None
    }
}

pub open spec fn party_view(party: AddressIdentity) -> (Seq<char>, Option<Seq<char>>) {
    (party.session_name@, name_view(party.display_name))
}

/// The co-recipients of `task` as parties, named from the delivery bundle
/// `bundle` where they are its members.
pub fn co_recipient_parties(task: &AsyncDeliveryTask, bundle: &BundleConfiguration) -> (cc: Vec<
    AddressIdentity,
>)
    ensures
        cc@.len() == spec_co_recipients(*task).len(),
        forall|k: int|
            0 <= k < cc@.len() ==> #[trigger] party_view(cc@[k]) == (
                spec_co_recipients(*task)[k],
                cc_display_name(*bundle, spec_co_recipients(*task)[k]),
            ),
{
    let sessions = co_recipient_sessions(task);
    let ghost names = sessions@.map_values(|s: String| s@);
    let mut cc: Vec<AddressIdentity> = Vec::new();
    let mut i: usize = 0;
    while i < sessions.len()
        invariant
            i <= sessions@.len(),
            names == sessions@.map_values(|s: String| s@),
            names == spec_co_recipients(*task),
            cc@.len() == i,
            forall|k: int|
                0 <= k < i ==> #[trigger] party_view(cc@[k]) == (
                    names[k],
                    cc_display_name(*bundle, names[k]),
                ),
        decreases sessions@.len() - i,
    {
        let session = &sessions[i];
        let local = bare_session_id(session.as_str(), bundle.bundle_name.as_str());
        let display_name = match find_member(bundle, local.as_str()) {
            Some(m) => match &bundle.members[m].name {
                Some(n) => Some(n.clone()),
                None => None,
            },
            None => None,
        };
        assert(names[i as int] == session@);
        cc.push(AddressIdentity { session_name: session.clone(), display_name });
        i = i + 1;
    }
    cc
}

/// The position of the task's target among the delivery bundle's members, or
/// `None` for a relay-wide target; a bundle target missing from its bundle is
/// an internal failure.
pub fn resolve_target_member(task: &AsyncDeliveryTask, bundle: &BundleConfiguration) -> (found:
    Result<Option<usize>, RelayError>)
    ensures
        ({
            let m = first_index(bundle.members@, member_id(task.target_session@));
            &&& m >= 0 ==> found == Ok::<Option<usize>, RelayError>(Some(m as usize))
            &&& m < 0 && task.target_is_ui ==> found == Ok::<Option<usize>, RelayError>(None)
            &&& m < 0 && !task.target_is_ui ==> found is Err && found->Err_0@ == error_view(
                "internal_unexpected_failure"@,
                "resolved target member is missing from bundle configuration"@,
                Some(seq![text_detail("target_session"@, task.target_session@)]),
            )
        }),
        found matches Ok(Some(m)) ==> m < bundle.members@.len(),
{
    match find_member(bundle, task.target_session.as_str()) {
        Some(m) => Ok(Some(m)),
        None => if task.target_is_ui {
            Ok(None)
        } else {
            Err(
                relay_error(
                    "internal_unexpected_failure",
                    "resolved target member is missing from bundle configuration",
                    one_detail(text_field("target_session", task.target_session.as_str())),
                ),
            )
        },
    }
}

/// The message `task` writes, stamped `created_at`: its body; the delivery
/// bundle as namespace; the sender by canonical id in its home namespace with
/// its display name; the target by canonical id, named as the member at
/// `target` (when one); the co-recipients; and the sender's verified
/// identity.
pub fn build_delivery_message(
    task: &AsyncDeliveryTask,
    bundle: &BundleConfiguration,
    target: Option<usize>,
    created_at: &str,
) -> (message: DeliveryMessage)
    requires
        target matches Some(m) ==> m < bundle.members@.len(),
    ensures
        message.body@ == task.message@,
        message.created_at@ == created_at@,
        message.namespace@ == task.bundle_name@,
        party_view(message.sender) == (
            spec_canonical(task.sender_session@, task.sender_namespace@),
            name_view(task.sender_display_name),
        ),
        party_view(message.target) == (
            canonical_target(*task),
            match target {
                Some(m) => name_view(bundle.members@[m as int].name),
                None => None,
            },
        ),
        message.cc@.len() == spec_co_recipients(*task).len(),
        forall|k: int|
            0 <= k < message.cc@.len() ==> #[trigger] party_view(message.cc@[k]) == (
                spec_co_recipients(*task)[k],
                cc_display_name(*bundle, spec_co_recipients(*task)[k]),
            ),
        text_opt(message.authenticated_identity) == text_opt(task.authenticated_identity),
{
    let target_name = match target {
        Some(m) => match &bundle.members[m].name {
            Some(n) => Some(n.clone()),
            None => None,
        },
        None => None,
    };
    DeliveryMessage {
        body: task.message.clone(),
        created_at: String::from_str(created_at),
        namespace: task.bundle_name.clone(),
        sender: AddressIdentity {
            session_name: canonical_session_id(
                task.sender_session.as_str(),
                task.sender_namespace.as_str(),
            ),
            display_name: match &task.sender_display_name {
                Some(n) => Some(n.clone()),
                None => None,
            },
        },
        target: AddressIdentity {
            session_name: canonical_session_id(
                task.target_session.as_str(),
                task.bundle_name.as_str(),
            ),
            display_name: target_name,
        },
        cc: co_recipient_parties(task, bundle),
        authenticated_identity: match &task.authenticated_identity {
            Some(a) => Some(a.clone()),
            None => None,
        },
    }
}

/// A message never lists its own target among its co-recipients.
pub proof fn lemma_target_is_never_its_own_cc(task: AsyncDeliveryTask, k: int)
    requires
        0 <= k < spec_co_recipients(task).len(),
    ensures
        spec_co_recipients(task)[k] != canonical_target(task),
{
    broadcast use vstd::seq_lib::group_filter_ensures;

}

} // verus!
