//! The decisions of a per-target delivery worker and of a UI delivery, each
//! taken on what the host observed and answered with the action it performs.
//!
//! A worker's loop: on shutdown it closes itself to new sends, resolves the
//! member it holds, drains and stops; once its producers are gone and
//! nothing is in flight or held it stops; otherwise it retries its held
//! member before taking anything newer, receiving only while nothing is
//! held and its bootstrap has settled. Submitting a member is gated by the
//! target: held while it cannot take a handover, resolved `not_submitted`
//! once unreachable past the dwell, and refused outright for a pubsub target,
//! which has no delivery path.
//!
//! A UI delivery first reports the message routed, then sends it; while the
//! UI stream is absent it retries until the timeout, and a failed stream
//! write fails the delivery.
use vstd::prelude::*;
use vstd::string::*;

use crate::configuration::SessionType;
use crate::delivery::gate::TargetGate;
use crate::delivery::guard::SendOutcome;
use crate::delivery::results::{
    result_view, target_unreachable_result, AsyncDeliveryTask, DeliveryPayloadMode, SendResult,
};
use crate::errors::{
    error_view, one_detail, relay_error, session_type_not_implemented, text_detail, text_field,
    RelayError, RelayErrorView,
};
use crate::identity::{canonical_session_id, spec_canonical};
use crate::text::{decimal, push_decimal};

verus! {

/// What a worker sees at the top of its loop.
#[derive(Clone, Copy, Debug, PartialEq, Eq, Structural)]
pub struct WorkerObservation {
    pub shutdown_requested: bool,
    /// Every producer of the worker's channel is gone.
    pub senders_dropped: bool,
    pub inflight_empty: bool,
    /// A member is held, waiting for its target to take a handover.
    pub holding: bool,
    /// The transport's bootstrap has settled (always, for a transport with
    /// none).
    pub bootstrap_settled: bool,
}

/// What a worker does at the top of its loop.
#[derive(Clone, Copy, Debug, PartialEq, Eq, Structural)]
pub enum WorkerLoopHead {
    /// Close to new sends, resolve the held member (when `release_held`) as
    /// dropped on shutdown, drain the in-flight members, and stop.
    ShutDown { release_held: bool },
    /// Nothing can reach the worker and nothing is owed: stop.
    Exit,
    /// Go on; first retry the held member when `retry_held`.
    Continue { retry_held: bool },
}

/// The loop head over an observation.
pub open spec fn spec_loop_head(seen: WorkerObservation) -> WorkerLoopHead {
    if seen.shutdown_requested {
        WorkerLoopHead::ShutDown { release_held: seen.holding }
    } else if seen.senders_dropped && seen.inflight_empty && !seen.holding {
        WorkerLoopHead::Exit
    } else {
        WorkerLoopHead::Continue { retry_held: seen.holding && seen.bootstrap_settled }
    }
}

/// Decides what a worker does at the top of its loop: shutdown first; then
/// stop when nothing can reach it and nothing is owed (a held member keeps
/// it alive); else go on, retrying a held member once its bootstrap settled.
pub fn worker_loop_head(seen: WorkerObservation) -> (head: WorkerLoopHead)
    ensures
        head == spec_loop_head(seen),
{
    if seen.shutdown_requested {
        WorkerLoopHead::ShutDown { release_held: seen.holding }
    } else if seen.senders_dropped && seen.inflight_empty && !seen.holding {
        WorkerLoopHead::Exit
    } else {
        WorkerLoopHead::Continue { retry_held: seen.holding && seen.bootstrap_settled }
    }
}

/// Which waits a worker arms after its loop head (and any retry).
#[derive(Clone, Copy, Debug, PartialEq, Eq, Structural)]
pub struct WorkerWaits {
    /// Receive the next member.
    pub receive: bool,
    /// Collect an in-flight member's outcome.
    pub collect: bool,
    /// Wake when a target's readiness moves.
    pub watch_readiness: bool,
}

/// Arms a worker's waits: a new member is received only while producers
/// remain, the bootstrap has settled and nothing is held, so a held member
/// keeps its place at the head of the target's queue; outcomes are collected
/// while any are in flight; readiness is watched only for a held member.
/// The poll tick is always armed.
pub fn worker_waits(senders_dropped: bool, bootstrap_settled: bool, holding: bool, inflight_empty: bool) -> (waits:
    WorkerWaits)
    ensures
        waits.receive == (!senders_dropped && bootstrap_settled && !holding),
        waits.collect == !inflight_empty,
        waits.watch_readiness == holding,
{
    WorkerWaits {
        receive: !senders_dropped && bootstrap_settled && !holding,
        collect: !inflight_empty,
        watch_readiness: holding,
    }
}

/// The kind of transport a worker delivers through.
#[derive(Clone, Copy, Debug, PartialEq, Eq, Structural)]
pub enum WorkerTransportKind {
    /// A tmux, ACP or PTY coder session.
    Coder,
    /// A relay-wide UI stream.
    Ui,
    /// Declared but not deliverable.
    Pubsub,
}

/// What submitting a member comes to.
#[derive(Debug)]
pub enum SubmitAction {
    /// The target cannot take a handover yet: hold the member untouched.
    Hold,
    /// Resolve the member with this outcome without handing it over.
    Resolve(SendResult),
    /// Refuse the member with this error without handing it over.
    Refuse(RelayError),
    /// Authorize the member and hand its stream envelope to the UI.
    HandToUi,
    /// Authorize the member and hand its rendered envelope to the coder.
    HandEnvelope,
    /// Authorize the member and hand its raw input to the coder.
    HandRawInput,
}

/// Decides what submitting `task` comes to, given the kind of transport and,
/// for a deliverable one, the handover verdict it reported. A pubsub target is
/// refused before any gate, since it reports unready like any transport
/// without a delivery path and holding its member would hold it forever.
pub fn submit_decision(
    task: &AsyncDeliveryTask,
    kind: WorkerTransportKind,
    gate: TargetGate,
    unreachable_dwell_ms: u64,
) -> (action: SubmitAction)
    ensures
        kind == WorkerTransportKind::Pubsub ==> action is Refuse && action->Refuse_0@ == error_view(
            "runtime_session_type_not_implemented"@,
            "session type delivery is not yet implemented"@,
            Some(
                seq![
                    text_detail("session_id"@, task.target_session@),
                    text_detail("session_type"@, "pubsub"@),
                ],
            ),
        ),
        kind != WorkerTransportKind::Pubsub && gate == TargetGate::Unreachable ==> action is Resolve
            && action->Resolve_0@ == result_view(
            task.target_session@,
            task.message_id@,
            SendOutcome::NotSubmitted,
            Some("delivery_target_unreachable"@),
            Some("target could not be reached for longer than the configured dwell"@),
            Some(seq![crate::errors::number_detail("unreachable_dwell_ms"@, unreachable_dwell_ms)]),
        ),
        kind != WorkerTransportKind::Pubsub && gate == TargetGate::Hold ==> action is Hold,
        kind == WorkerTransportKind::Ui && gate == TargetGate::Open ==> action is HandToUi,
        kind == WorkerTransportKind::Coder && gate == TargetGate::Open ==> (if task.payload_mode
            == DeliveryPayloadMode::EnvelopeMessage {
            action is HandEnvelope
        } else {
            action is HandRawInput
        }),
{
    match kind {
        WorkerTransportKind::Pubsub => SubmitAction::Refuse(
            session_type_not_implemented(task.target_session.as_str(), SessionType::Pubsub),
        ),
        _ => match gate {
            TargetGate::Unreachable => SubmitAction::Resolve(
                target_unreachable_result(task, unreachable_dwell_ms),
            ),
            TargetGate::Hold => SubmitAction::Hold,
            TargetGate::Open => match kind {
                WorkerTransportKind::Ui => SubmitAction::HandToUi,
                _ => match task.payload_mode {
                    DeliveryPayloadMode::EnvelopeMessage => SubmitAction::HandEnvelope,
                    DeliveryPayloadMode::RawInput => SubmitAction::HandRawInput,
                },
            },
        },
    }
}

/// How sending one event to a UI stream went.
#[derive(Debug)]
pub enum StreamSend {
    Delivered,
    /// No UI endpoint is registered for the target.
    NoEndpoint,
    /// The UI endpoint is registered but disconnected.
    Disconnected,
    /// Writing the event failed, for the given cause.
    Failed(String),
}

/// Where a UI delivery stands: reporting the message routed, or sending it.
#[derive(Clone, Copy, Debug, PartialEq, Eq, Structural)]
pub enum UiPhase {
    Routing,
    Sending,
}

/// What a UI delivery does next.
#[derive(Debug)]
pub enum UiStep {
    /// Send the message itself.
    Send,
    /// Wait a poll interval and report the message routed again.
    Retry,
    /// The delivery ended with this result; a delivered one is reported
    /// `delivered`, one dropped on shutdown `failed`.
    Finish(SendResult),
}

/// The reason a UI delivery timed out after `elapsed_ms`.
pub open spec fn disconnected_reason(elapsed_ms: u64) -> Seq<char> {
    "ui relay stream was disconnected for "@ + decimal(elapsed_ms as nat) + "ms"@
}

/// The reason a UI delivery failed on a stream write's `cause`.
pub open spec fn emit_failed_reason(cause: Seq<char>) -> Seq<char> {
    "failed to emit relay stream event: "@ + cause
}

fn disconnected_result(target_session: String, message_id: String, elapsed_ms: u64) -> (result:
    SendResult)
    ensures
        result@ == result_view(
            target_session@,
            message_id@,
            SendOutcome::Timeout,
            None,
            Some(disconnected_reason(elapsed_ms)),
            None,
        ),
{
    let mut reason = String::from_str("ui relay stream was disconnected for ");
    push_decimal(&mut reason, elapsed_ms);
    reason.append("ms");
    SendResult {
        target_session,
        message_id,
        outcome: SendOutcome::Timeout,
        reason_code: None,
        reason: Some(reason),
        details: None,
    }
}

/// Decides a UI delivery's next step. On shutdown it is dropped; otherwise
/// what the stream answered decides: a routed report lets the send go
/// ahead, a delivered send ends it delivered, a failed write ends it failed
/// with the cause, and an absent stream retries until `elapsed_ms` reaches
/// `timeout_ms`, when it times out.
pub fn ui_delivery_step(
    target_session: String,
    message_id: String,
    phase: UiPhase,
    shutdown_requested: bool,
    answer: StreamSend,
    elapsed_ms: u64,
    timeout_ms: u64,
) -> (step: UiStep)
    ensures
        shutdown_requested ==> step is Finish && step->Finish_0@ == result_view(
            target_session@,
            message_id@,
            SendOutcome::DroppedOnShutdown,
            Some("dropped_on_shutdown"@),
            Some("relay shutdown requested before delivery"@),
            None,
        ),
        !shutdown_requested ==> match answer {
            StreamSend::Delivered => if phase == UiPhase::Routing {
                step is Send
            } else {
                step is Finish && step->Finish_0@ == result_view(
                    target_session@,
                    message_id@,
                    SendOutcome::Delivered,
                    None,
                    None,
                    None,
                )
            },
            StreamSend::Failed(cause) => step is Finish && step->Finish_0@ == result_view(
                target_session@,
                message_id@,
                SendOutcome::Failed,
                None,
                Some(emit_failed_reason(cause@)),
                None,
            ),
            _ => if elapsed_ms >= timeout_ms {
                step is Finish && step->Finish_0@ == result_view(
                    target_session@,
                    message_id@,
                    SendOutcome::Timeout,
                    None,
                    Some(disconnected_reason(elapsed_ms)),
                    None,
                )
            } else {
                step is Retry
            },
        },
{
    if shutdown_requested {
        return UiStep::Finish(
            SendResult {
                target_session,
                message_id,
                outcome: SendOutcome::DroppedOnShutdown,
                reason_code: Some(String::from_str("dropped_on_shutdown")),
                reason: Some(String::from_str("relay shutdown requested before delivery")),
                details: None,
            },
        );
    }
    match answer {
        StreamSend::Delivered => match phase {
            UiPhase::Routing => UiStep::Send,
            UiPhase::Sending => UiStep::Finish(
                SendResult {
                    target_session,
                    message_id,
                    outcome: SendOutcome::Delivered,
                    reason_code: None,
                    reason: None,
                    details: None,
                },
            ),
        },
        StreamSend::Failed(cause) => {
            let mut reason = String::from_str("failed to emit relay stream event: ");
            reason.append(cause.as_str());
            UiStep::Finish(
                SendResult {
                    target_session,
                    message_id,
                    outcome: SendOutcome::Failed,
                    reason_code: None,
                    reason: Some(reason),
                    details: None,
                },
            )
        },
        _ => if elapsed_ms >= timeout_ms {
            UiStep::Finish(disconnected_result(target_session, message_id, elapsed_ms))
        } else {
            UiStep::Retry
        },
    }
}

/// Who a UI recipient sees a message from and who else it went to: the
/// sender by canonical id in its own namespace, and the co-recipients by
/// canonical id in the target's bundle, or `None` when there are none.
pub fn ui_message_parties(
    sender_session: &str,
    sender_namespace: &str,
    cc_sessions: &Vec<String>,
    bundle_name: &str,
) -> (parties: (String, Option<Vec<String>>))
    ensures
        parties.0@ == spec_canonical(sender_session@, sender_namespace@),
        cc_sessions@.len() == 0 ==> parties.1 is None,
        cc_sessions@.len() > 0 ==> parties.1 is Some && parties.1.unwrap()@.map_values(
            |s: String| s@,
        ) == cc_sessions@.map_values(|s: String| spec_canonical(s@, bundle_name@)),
{
    let sender = canonical_session_id(sender_session, sender_namespace);
    if cc_sessions.len() == 0 {
        return (sender, None);
    }
    let mut cc: Vec<String> = Vec::new();
    let mut i: usize = 0;
    while i < cc_sessions.len()
        invariant
            i <= cc_sessions@.len(),
            cc@.len() == i,
            forall|j: int|
                0 <= j < i ==> #[trigger] cc@[j]@ == spec_canonical(
                    cc_sessions@[j]@,
                    bundle_name@,
                ),
        decreases cc_sessions@.len() - i,
    {
        cc.push(canonical_session_id(cc_sessions[i].as_str(), bundle_name));
        i = i + 1;
    }
    assert(cc@.map_values(|s: String| s@) =~= cc_sessions@.map_values(
        |s: String| spec_canonical(s@, bundle_name@),
    ));
    (sender, Some(cc))
}

/// How handing a task to a target's registered worker went.
#[derive(Clone, Copy, Debug, PartialEq, Eq, Structural)]
pub enum WorkerDispatch {
    /// The worker took the task.
    Accepted,
    /// The worker is draining for shutdown and takes nothing new.
    Closing,
    /// A previous generation was not observed to stop writing to the target.
    FailStopped,
    /// No worker is registered for the target.
    Missing,
    /// A worker is registered but its receiver is gone.
    Dropped,
}

/// What enqueueing a task comes to.
#[derive(Debug)]
pub enum EnqueueAction {
    /// The task is queued.
    Queued,
    /// Resolve the task as dropped on shutdown; the enqueue itself succeeds,
    /// and the sender is answered with the task's `shutdown_receipt`.
    DropOnShutdown,
    /// Start a worker for the target (its registration is the election) and
    /// hand it the task.
    SpawnWorker,
    /// Refuse the enqueue with this error.
    Refuse(RelayError),
}

pub open spec fn acp_unavailable(target_session: Seq<char>) -> RelayErrorView {
    error_view(
        "runtime_acp_worker_unavailable"@,
        "ACP worker is unavailable for target session"@,
        Some(seq![text_detail("target_session"@, target_session)]),
    )
}

pub open spec fn spec_fail_stopped(target_session: Seq<char>) -> RelayErrorView {
    error_view(
        "delivery_target_fail_stopped"@,
        "target is fail-stopped: a previous generation was not observed to cease"@,
        Some(seq![text_detail("target_session"@, target_session)]),
    )
}

/// The error a fail-stopped target refuses every send with.
pub fn fail_stopped_error(task: &AsyncDeliveryTask) -> (error: RelayError)
    ensures
        error@ == spec_fail_stopped(task.target_session@),
{
    relay_error(
        "delivery_target_fail_stopped",
        "target is fail-stopped: a previous generation was not observed to cease",
        one_detail(text_field("target_session", task.target_session.as_str())),
    )
}

fn acp_unavailable_error(task: &AsyncDeliveryTask) -> (error: RelayError)
    ensures
        error@ == acp_unavailable(task.target_session@),
{
    relay_error(
        "runtime_acp_worker_unavailable",
        "ACP worker is unavailable for target session",
        one_detail(text_field("target_session", task.target_session.as_str())),
    )
}

/// Whether a task may be offered to its target's worker: an ACP target's
/// queue is bounded and its worker made at startup, so with no registered
/// worker it is unavailable.
pub fn acp_queue_precheck(task: &AsyncDeliveryTask, bounded_acp_queue: bool, worker_registered: bool) -> (checked:
    Result<(), RelayError>)
    ensures
        bounded_acp_queue && !worker_registered ==> checked is Err && checked->Err_0@
            == acp_unavailable(task.target_session@),
        !(bounded_acp_queue && !worker_registered) ==> checked is Ok,
{
    if bounded_acp_queue && !worker_registered {
        return Err(acp_unavailable_error(task));
    }
    Ok(())
}

/// Decides an enqueue from how offering the task to the target's worker
/// went: a draining worker drops it as on shutdown rather than have a second
/// worker raised beside it; a fail-stopped target refuses it; with no live
/// worker an ACP task is refused (its worker is never raised lazily) and any
/// other starts one.
pub fn enqueue_decision(task: &AsyncDeliveryTask, bounded_acp_queue: bool, dispatch: WorkerDispatch) -> (action:
    EnqueueAction)
    ensures
        dispatch == WorkerDispatch::Accepted ==> action is Queued,
        dispatch == WorkerDispatch::Closing ==> action is DropOnShutdown,
        dispatch == WorkerDispatch::FailStopped ==> action is Refuse && action->Refuse_0@
            == spec_fail_stopped(task.target_session@),
        (dispatch == WorkerDispatch::Missing || dispatch == WorkerDispatch::Dropped) ==> if bounded_acp_queue {
            action is Refuse && action->Refuse_0@ == acp_unavailable(task.target_session@)
        } else {
            action is SpawnWorker
        },
{
    match dispatch {
        WorkerDispatch::Accepted => EnqueueAction::Queued,
        WorkerDispatch::Closing => EnqueueAction::DropOnShutdown,
        WorkerDispatch::FailStopped => EnqueueAction::Refuse(fail_stopped_error(task)),
        _ => if bounded_acp_queue {
            EnqueueAction::Refuse(acp_unavailable_error(task))
        } else {
            EnqueueAction::SpawnWorker
        },
    }
}

/// Decides the hand-off to a worker another sender registered first (the
/// election was lost): as `enqueue_decision`, except that a worker gone
/// again in that window is reported, never raised once more.
pub fn installed_owner_decision(task: &AsyncDeliveryTask, dispatch: WorkerDispatch) -> (action:
    EnqueueAction)
    ensures
        dispatch == WorkerDispatch::Accepted ==> action is Queued,
        dispatch == WorkerDispatch::Closing ==> action is DropOnShutdown,
        dispatch == WorkerDispatch::FailStopped ==> action is Refuse && action->Refuse_0@
            == spec_fail_stopped(task.target_session@),
        (dispatch == WorkerDispatch::Missing || dispatch == WorkerDispatch::Dropped) ==> action is Refuse
            && action->Refuse_0@ == error_view(
            "internal_unexpected_failure"@,
            "target worker was replaced while the delivery was being enqueued"@,
            Some(seq![text_detail("target_session"@, task.target_session@)]),
        ),
{
    match dispatch {
        WorkerDispatch::Accepted => EnqueueAction::Queued,
        WorkerDispatch::Closing => EnqueueAction::DropOnShutdown,
        WorkerDispatch::FailStopped => EnqueueAction::Refuse(fail_stopped_error(task)),
        _ => EnqueueAction::Refuse(
            relay_error(
                "internal_unexpected_failure",
                "target worker was replaced while the delivery was being enqueued",
                one_detail(text_field("target_session", task.target_session.as_str())),
            ),
        ),
    }
}

/// Why the delivery ledger refused to queue a task.
#[derive(Clone, Copy, Debug, PartialEq, Eq, Structural)]
pub enum EnqueueRejection {
    /// The message already holds its place in the target's mailbox.
    AlreadyEnqueued,
    /// The message already reached a terminal outcome.
    AlreadyTerminal,
    /// The ledger could not be reached.
    LedgerUnavailable,
}

/// The refusal (code and reason) a task is resolved with when the ledger
/// would not queue it: always a relay-side condition, never the target's.
pub fn rejection_refusal(rejection: EnqueueRejection) -> (refusal: (&'static str, &'static str))
    ensures
        refusal.0@ == "internal_unexpected_failure"@,
        rejection == EnqueueRejection::AlreadyEnqueued ==> refusal.1@
            == "this message already occupies its position in the target's mailbox"@,
        rejection == EnqueueRejection::AlreadyTerminal ==> refusal.1@
            == "this message had already reached a terminal outcome"@,
        rejection == EnqueueRejection::LedgerUnavailable ==> refusal.1@
            == "the relay could not reach its delivery ledger to queue this message"@,
{
    match rejection {
        EnqueueRejection::AlreadyEnqueued => (
            "internal_unexpected_failure",
            "this message already occupies its position in the target's mailbox",
        ),
        EnqueueRejection::AlreadyTerminal => (
            "internal_unexpected_failure",
            "this message had already reached a terminal outcome",
        ),
        EnqueueRejection::LedgerUnavailable => (
            "internal_unexpected_failure",
            "the relay could not reach its delivery ledger to queue this message",
        ),
    }
}

/// The artifact a target is written.
#[derive(Clone, Copy, Debug, PartialEq, Eq, Structural)]
pub enum PayloadKind {
    /// A stream envelope, for a UI target.
    UiEnvelope,
    /// A rendered envelope, for a coder target.
    CoderEnvelope,
    /// The raw input, with or without a trailing enter.
    RawInput,
}

/// Which artifact a task becomes: a UI target is always written an envelope,
/// since a stream event has no raw form; a coder target is written the
/// rendered envelope or the raw input, as the task asks.
pub fn payload_kind(target_is_ui: bool, payload_mode: DeliveryPayloadMode) -> (kind: PayloadKind)
    ensures
        target_is_ui ==> kind == PayloadKind::UiEnvelope,
        !target_is_ui && payload_mode == DeliveryPayloadMode::EnvelopeMessage ==> kind
            == PayloadKind::CoderEnvelope,
        !target_is_ui && payload_mode == DeliveryPayloadMode::RawInput ==> kind
            == PayloadKind::RawInput,
{
    if target_is_ui {
        return PayloadKind::UiEnvelope;
    }
    match payload_mode {
        DeliveryPayloadMode::EnvelopeMessage => PayloadKind::CoderEnvelope,
        DeliveryPayloadMode::RawInput => PayloadKind::RawInput,
    }
}

/// A worker holding a member never stops on its own: only a shutdown
/// resolves a held member early, and while it is held nothing newer is
/// received, so the target's queue order survives the wait.
pub proof fn lemma_held_member_is_never_abandoned(seen: WorkerObservation)
    requires
        seen.holding,
    ensures
        !(spec_loop_head(seen) is Exit),
        spec_loop_head(seen) matches WorkerLoopHead::ShutDown { release_held } ==> release_held,
        !seen.shutdown_requested ==> spec_loop_head(seen) == (WorkerLoopHead::Continue {
            retry_held: seen.bootstrap_settled,
        }),
{
}

/// A worker stops on its own only when nothing can reach it and it owes
/// nothing: without a shutdown request it exits exactly when its senders are
/// gone, nothing is in flight and nothing is held, and otherwise goes on; a
/// member still in flight or held is always collected or retried first.
pub proof fn lemma_worker_exits_only_when_nothing_is_owed(seen: WorkerObservation)
    ensures
        (spec_loop_head(seen) is Exit) <==> (!seen.shutdown_requested && seen.senders_dropped
            && seen.inflight_empty && !seen.holding),
        !seen.shutdown_requested && (!seen.inflight_empty || seen.holding || !seen.senders_dropped)
            ==> spec_loop_head(seen) is Continue,
        seen.shutdown_requested ==> spec_loop_head(seen) == (WorkerLoopHead::ShutDown {
            release_held: seen.holding,
        }),
        spec_loop_head(seen) matches WorkerLoopHead::Continue { retry_held } ==> (retry_held
            <==> (seen.holding && seen.bootstrap_settled)),
{
}

} // verus!
