//! Sending across relays: how a cross-relay target is labelled to the
//! requester, and how what the peer relay answered becomes that target's
//! result. One unreachable peer never fails the requester's other targets: a
//! failed forward is that target's `failed` (or `peer_unavailable`) result.
use vstd::prelude::*;
use vstd::string::*;

use crate::clock::new_request_id;
use crate::configuration::BundleConfiguration;
use crate::delivery::guard::SendOutcome;
use crate::delivery::results::{result_view, SendResult, SendResultView};
use crate::errors::{
    details_view, error_view, random_source_failed, relay_error, spec_random_source_failed, Detail,
    RelayError, RelayErrorView,
};
use crate::identity::{canonical_session_id, spec_canonical};
use crate::text::{is_blank, is_blank_seq, push_char, str_eq};

verus! {

/// What a peer relay answered to a forwarded send.
pub enum ForwardReply {
    /// The peer's send response, with its per-target results.
    Send(Vec<SendResult>),
    /// The peer answered with an error.
    Error(RelayError),
    /// The peer answered with some other kind of response.
    Unexpected,
    /// The forward itself failed (transport or handshake).
    Failed(RelayError),
}

/// The label a cross-relay target carries in the requester's results: its
/// foreign `session@bundle`, then `!` and the relay it was forwarded to.
pub open spec fn spec_cross_relay_label(
    session_id: Seq<char>,
    namespace: Seq<char>,
    relay_id: Seq<char>,
) -> Seq<char> {
    spec_canonical(session_id, namespace).push('!') + relay_id
}

/// Labels a cross-relay target for the requester.
pub fn cross_relay_target_label(session_id: &str, namespace: &str, relay_id: &str) -> (label:
    String)
    ensures
        label@ == spec_cross_relay_label(session_id@, namespace@, relay_id@),
{
    let mut label = canonical_session_id(session_id, namespace);
    push_char(&mut label, '!');
    label.append(relay_id);
    label
}

/// The result of a cross-relay target whose forward ended in `error`, under
/// `message_id`: an unreachable peer is `peer_unavailable`, anything else
/// `failed`, each carrying the error's code, message and details.
pub fn cross_relay_result_with_id(target_label: String, error: RelayError, message_id: String) -> (result:
    SendResult)
    ensures
        result@ == result_view(
            target_label@,
            message_id@,
            if error.code@ == "runtime_peer_unavailable"@ {
                SendOutcome::PeerUnavailable
            } else {
                SendOutcome::Failed
            },
            Some(error.code@),
            Some(error.message@),
            details_view(error.details),
        ),
{
    let outcome = if str_eq(error.code.as_str(), "runtime_peer_unavailable") {
        SendOutcome::PeerUnavailable
    } else {
        SendOutcome::Failed
    };
    SendResult {
        target_session: target_label,
        message_id,
        outcome,
        reason_code: Some(error.code),
        reason: Some(error.message),
        details: error.details,
    }
}

/// The result of a cross-relay target whose forward ended in `error`, under a
/// fresh message id; the random-source error when no id can be drawn.
pub fn cross_relay_result_from_error(target_label: String, error: RelayError) -> (result: Result<
    SendResult,
    RelayError,
>)
    ensures
        result is Err ==> result->Err_0@ == spec_random_source_failed(),
        result is Ok ==> {
            let r = result->Ok_0@;
            &&& r.target_session == target_label@
            &&& r.outcome == (if error.code@ == "runtime_peer_unavailable"@ {
                SendOutcome::PeerUnavailable
            } else {
                SendOutcome::Failed
            })
            &&& r.reason_code == Some(error.code@)
            &&& r.reason == Some(error.message@)
            &&& r.details == details_view(error.details)
        },
{
    match new_request_id() {
        None => Err(random_source_failed()),
        Some(message_id) => Ok(cross_relay_result_with_id(target_label, error, message_id)),
    }
}

/// A failed cross-relay result under `message_id`.
pub fn failed_cross_relay_result_with_id(
    target_session: String,
    reason_code: &str,
    reason: &str,
    details: Option<Vec<Detail>>,
    message_id: String,
) -> (result: SendResult)
    ensures
        result@ == result_view(
            target_session@,
            message_id@,
            SendOutcome::Failed,
            Some(reason_code@),
            Some(reason@),
            details_view(details),
        ),
{
    SendResult {
        target_session,
        message_id,
        outcome: SendOutcome::Failed,
        reason_code: Some(String::from_str(reason_code)),
        reason: Some(String::from_str(reason)),
        details,
    }
}

/// A failed cross-relay result under a fresh message id; the random-source
/// error when no id can be drawn.
pub fn failed_cross_relay_result(
    target_session: String,
    reason_code: &str,
    reason: &str,
    details: Option<Vec<Detail>>,
) -> (result: Result<SendResult, RelayError>)
    ensures
        result is Err ==> result->Err_0@ == spec_random_source_failed(),
        result is Ok ==> {
            let r = result->Ok_0@;
            &&& r.target_session == target_session@
            &&& r.outcome == SendOutcome::Failed
            &&& r.reason_code == Some(reason_code@)
            &&& r.reason == Some(reason@)
            &&& r.details == details_view(details)
        },
{
    match new_request_id() {
        None => Err(random_source_failed()),
        Some(message_id) => Ok(
            failed_cross_relay_result_with_id(target_session, reason_code, reason, details, message_id),
        ),
    }
}

/// The result a cross-relay target gets from the peer's reply, under
/// `message_id` where the relay has to make one up: the peer's own last
/// result, relabelled to the target's label; a peer that answered with no
/// result, some other response, or no configured peer at all (`reply` is
/// `None`), a failure naming why; a peer error or failed forward, that error.
pub fn forwarded_send_result(label: String, reply: Option<ForwardReply>, message_id: String) -> (result:
    SendResult)
    ensures
        reply is None ==> result@ == result_view(
            label@,
            message_id@,
            SendOutcome::Failed,
            Some("validation_unknown_peer"@),
            Some("no configured peer relay matches the target alias"@),
            None,
        ),
        reply matches Some(ForwardReply::Send(results)) ==> (results@.len() > 0 ==> result@
            == (SendResultView { target_session: label@, ..results@.last()@ })) && (results@.len()
            == 0 ==> result@ == result_view(
            label@,
            message_id@,
            SendOutcome::Failed,
            Some("internal_peer_empty_results"@),
            Some("peer relay returned no delivery result for the forwarded target"@),
            None,
        )),
        reply matches Some(ForwardReply::Error(e)) ==> result@ == result_view(
            label@,
            message_id@,
            if e.code@ == "runtime_peer_unavailable"@ {
                SendOutcome::PeerUnavailable
            } else {
                SendOutcome::Failed
            },
            Some(e.code@),
            Some(e.message@),
            details_view(e.details),
        ),
        reply matches Some(ForwardReply::Failed(e)) ==> result@ == result_view(
            label@,
            message_id@,
            if e.code@ == "runtime_peer_unavailable"@ {
                SendOutcome::PeerUnavailable
            } else {
                SendOutcome::Failed
            },
            Some(e.code@),
            Some(e.message@),
            details_view(e.details),
        ),
        reply matches Some(ForwardReply::Unexpected) ==> result@ == result_view(
            label@,
            message_id@,
            SendOutcome::Failed,
            Some("internal_peer_unexpected_response"@),
            Some("peer relay returned an unexpected response kind for a forwarded send"@),
            None,
        ),
{
    match reply {
        None => failed_cross_relay_result_with_id(
            label,
            "validation_unknown_peer",
            "no configured peer relay matches the target alias",
            None,
            message_id,
        ),
        Some(ForwardReply::Send(results)) => {
            let mut results = results;
            match results.pop() {
                Some(mut result) => {
                    result.target_session = label;
                    result
                },
                None => failed_cross_relay_result_with_id(
                    label,
                    "internal_peer_empty_results",
                    "peer relay returned no delivery result for the forwarded target",
                    None,
                    message_id,
                ),
            }
        },
        Some(ForwardReply::Error(error)) => cross_relay_result_with_id(label, error, message_id),
        Some(ForwardReply::Unexpected) => failed_cross_relay_result_with_id(
            label,
            "internal_peer_unexpected_response",
            "peer relay returned an unexpected response kind for a forwarded send",
            None,
            message_id,
        ),
        Some(ForwardReply::Failed(error)) => cross_relay_result_with_id(label, error, message_id),
    }
}

/// Refuses a send with a blank message, with no targets and no broadcast, or
/// with both targets and a broadcast.
pub fn validate_send_request(message: &str, target_count: usize, broadcast: bool) -> (checked:
    Result<(), RelayError>)
    ensures
        is_blank_seq(message@) ==> checked is Err && checked->Err_0@ == error_view(
            "validation_invalid_arguments"@,
            "message must be non-empty"@,
            None,
        ),
        !is_blank_seq(message@) && !broadcast && target_count == 0 ==> checked is Err
            && checked->Err_0@ == error_view(
            "validation_empty_targets"@,
            "targets must contain at least one session"@,
            None,
        ),
        !is_blank_seq(message@) && broadcast && target_count > 0 ==> checked is Err
            && checked->Err_0@ == error_view(
            "validation_conflicting_targets"@,
            "targets must be empty when broadcast=true"@,
            None,
        ),
        !is_blank_seq(message@) && (broadcast == (target_count == 0)) ==> checked is Ok,
{
    if is_blank(message) {
        return Err(relay_error("validation_invalid_arguments", "message must be non-empty", None));
    }
    if !broadcast && target_count == 0 {
        return Err(
            relay_error(
                "validation_empty_targets",
                "targets must contain at least one session",
                None,
            ),
        );
    }
    if broadcast && target_count > 0 {
        return Err(
            relay_error(
                "validation_conflicting_targets",
                "targets must be empty when broadcast=true",
                None,
            ),
        );
    }
    Ok(())
}

/// The targets of a broadcast: every member of the sender's home bundle but
/// the sender, in configuration order. A sender with no home bundle cannot
/// broadcast.
pub fn broadcast_targets(home_bundle: Option<&BundleConfiguration>, sender_session: &str) -> (targets:
    Result<Vec<String>, RelayError>)
    ensures
        home_bundle is None ==> targets is Err && targets->Err_0@ == error_view(
            "validation_invalid_arguments"@,
            "broadcast requires a bundle-bound sender"@,
            None,
        ),
        home_bundle is Some ==> targets is Ok && targets->Ok_0@.map_values(|s: String| s@)
            == home_bundle.unwrap().members_view().map_values(
            |m: crate::configuration::MemberView| m.id,
        ).filter(|id: Seq<char>| id != sender_session@),
{
    let bundle = match home_bundle {
        None => {
            return Err(
                relay_error(
                    "validation_invalid_arguments",
                    "broadcast requires a bundle-bound sender",
                    None,
                ),
            );
        },
        Some(b) => b,
    };
    let ghost ids = bundle.members_view().map_values(|m: crate::configuration::MemberView| m.id);
    let ghost keep = |id: Seq<char>| id != sender_session@;
    let mut out: Vec<String> = Vec::new();
    let mut i: usize = 0;
    while i < bundle.members.len()
        invariant
            i <= bundle.members@.len(),
            ids == bundle.members_view().map_values(|m: crate::configuration::MemberView| m.id),
            keep == (|id: Seq<char>| id != sender_session@),
            out@.map_values(|s: String| s@) == ids.subrange(0, i as int).filter(keep),
        decreases bundle.members@.len() - i,
    {
        proof {
            crate::seqs::lemma_filter_step(ids, keep, i as int);
        }
        assert(ids[i as int] == bundle.members@[i as int].id@);
        let ghost before = out@.map_values(|s: String| s@);
        if !str_eq(bundle.members[i].id.as_str(), sender_session) {
            out.push(bundle.members[i].id.clone());
            assert(out@.map_values(|s: String| s@) =~= before.push(ids[i as int]));
        }
        i = i + 1;
    }
    assert(ids.subrange(0, ids.len() as int) =~= ids);
    Ok(out)
}

} // verus!
