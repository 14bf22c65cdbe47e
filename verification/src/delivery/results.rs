//! Per-target delivery results, and how a transport's outcome becomes one.
//!
//! A delivery reaches a transport as rendered envelopes; the transport answers
//! with outcomes. One outcome is fanned out to every task of a coalesced batch,
//! each keeping its own target and message id; a transport that answers with
//! nothing is a failure, never a silent success; a wait that ended early is
//! reported as a timeout, a failure, or a drop on shutdown.
use vstd::prelude::*;
use vstd::string::*;

use crate::configuration::{name_view, BundleMember, MemberView, SessionType};
use crate::identity::{canonical_session_id, spec_canonical};
use crate::delivery::guard::SendOutcome;
use crate::errors::{
    details_view, error_view, one_detail, session_type_not_implemented, text_detail, text_field,
    Detail, DetailView, RelayError,
};
use crate::startup_state::{copy_details, note_session_served_successfully, other_session, StartupFailureHistory};
use crate::configuration::session_type_name;
use crate::text::{decimal, push_decimal};

verus! {

/// The outcome reported for one delivery target.
#[derive(Debug)]
pub struct SendResult {
    pub target_session: String,
    pub message_id: String,
    pub outcome: SendOutcome,
    pub reason_code: Option<String>,
    pub reason: Option<String>,
    pub details: Option<Vec<Detail>>,
}

pub struct SendResultView {
    pub target_session: Seq<char>,
    pub message_id: Seq<char>,
    pub outcome: SendOutcome,
    pub reason_code: Option<Seq<char>>,
    pub reason: Option<Seq<char>>,
    pub details: Option<Seq<DetailView>>,
}

pub open spec fn text_opt(value: Option<String>) -> Option<Seq<char>> {
    match value {
        None => None,
        Some(v) => Some(v@),
    }
}

impl View for SendResult {
    type V = SendResultView;

    open spec fn view(&self) -> SendResultView {
        SendResultView {
            target_session: self.target_session@,
            message_id: self.message_id@,
            outcome: self.outcome,
            reason_code: text_opt(self.reason_code),
            reason: text_opt(self.reason),
            details: details_view(self.details),
        }
    }
}

/// How a task's message reaches the target.
#[derive(Clone, Copy, Debug, PartialEq, Eq, Structural)]
pub enum DeliveryPayloadMode {
    /// Rendered into envelopes, pasted and submitted.
    EnvelopeMessage,
    /// Pasted verbatim.
    RawInput,
}

/// One queued delivery: a message for one target, with who sent it and who
/// else it went to.
#[derive(Debug)]
pub struct AsyncDeliveryTask {
    /// The bundle whose group the target was resolved in.
    pub bundle_name: String,
    /// The sender's home namespace.
    pub sender_namespace: String,
    pub sender_session: String,
    pub sender_display_name: Option<String>,
    /// The sender's verified principal id; `None` under socket trust.
    pub authenticated_identity: Option<String>,
    /// The origin a peer relay forwarded this send for.
    pub on_behalf_of: Option<String>,
    /// Every recipient of the send, by canonical id.
    pub all_target_sessions: Vec<String>,
    pub target_session: String,
    /// The target is a relay-wide UI session.
    pub target_is_ui: bool,
    pub message_id: String,
    pub message: String,
    pub quiescence: QuiescenceOptions,
    pub payload_mode: DeliveryPayloadMode,
    pub append_enter: bool,
    /// The task carries a receipt back to a sender, not a message.
    pub is_receipt: bool,
    /// The runtime directory of the bundle the target lives in.
    pub runtime_directory: String,
    /// The relay-wide UI sessions authorized to decide choices the target
    /// raises during this delivery.
    pub choice_decider_sessions: Vec<String>,
    /// Where a receipt for an outcome other than delivery goes: the sender's
    /// own member and its bundle's runtime directory. `None` for a sender
    /// outside any bundle (relay-wide or a peer relay), which learns outcomes
    /// from its stream instead.
    pub sender_return_route: Option<SenderReturnRoute>,
}

/// The sender's own delivery context, for routing a receipt back to it.
#[derive(Debug)]
pub struct SenderReturnRoute {
    pub member: BundleMember,
    pub runtime_directory: String,
}

/// What a return route says: the sender member, its display name, and its
/// bundle's runtime directory.
pub open spec fn route_view(route: Option<SenderReturnRoute>) -> Option<
    (MemberView, Option<Seq<char>>, Seq<char>),
> {
    match route {
        None => None,
        Some(r) => Some((r.member@, name_view(r.member.name), r.runtime_directory@)),
    }
}

/// A copy of a return route.
pub fn copy_route(route: &Option<SenderReturnRoute>) -> (copy: Option<SenderReturnRoute>)
    ensures
        route_view(copy) == route_view(*route),
{
    match route {
        None => None,
        Some(r) => Some(
            SenderReturnRoute { member: r.member.copy(), runtime_directory: r.runtime_directory.clone() },
        ),
    }
}

/// The text of the receipt a sender gets for a message dropped on relay
/// shutdown: which message, to which target.
pub open spec fn shutdown_receipt_text(message_id: Seq<char>, target: Seq<char>) -> Seq<char> {
    "message "@ + message_id + " to "@ + target + " was dropped on relay shutdown"@
}

/// `r` is the receipt `task`'s sender gets when the task is dropped on
/// relay shutdown.
pub open spec fn is_shutdown_receipt(r: AsyncDeliveryTask, task: AsyncDeliveryTask) -> bool {
    let route = task.sender_return_route.unwrap();
    &&& r.is_receipt
    &&& r.bundle_name@ == task.sender_namespace@
    &&& r.target_session@ == route.member.id@
    &&& !r.target_is_ui
    &&& r.runtime_directory@ == route.runtime_directory@
    &&& r.sender_namespace@ == task.sender_namespace@
    &&& r.sender_session@ == task.sender_session@
    &&& r.all_target_sessions@.map_values(|s: String| s@) == seq![
        spec_canonical(route.member.id@, task.sender_namespace@),
    ]
    &&& r.message_id@ == task.message_id@
    &&& r.message@ == shutdown_receipt_text(
        task.message_id@,
        spec_canonical(task.target_session@, task.bundle_name@),
    )
    &&& r.payload_mode == DeliveryPayloadMode::EnvelopeMessage
    &&& r.append_enter
    &&& r.sender_return_route is None
    &&& r.choice_decider_sessions@.len() == 0
    &&& r.authenticated_identity is None
    &&& r.on_behalf_of is None
}

/// The receipt a task that was dropped on relay shutdown sends back to its
/// sender: `None` when the sender has no return route; otherwise a receipt
/// task addressed to the sender's own member in its own bundle, naming the
/// message and its canonical target, under the same message id. A receipt
/// carries no return route of its own, so a receipt is never answered with
/// another.
pub fn shutdown_receipt(task: &AsyncDeliveryTask) -> (receipt: Option<AsyncDeliveryTask>)
    ensures
        task.sender_return_route is None ==> receipt is None,
        task.sender_return_route is Some ==> receipt is Some && is_shutdown_receipt(
            receipt.unwrap(),
            *task,
        ),
{
    let route = match &task.sender_return_route {
        None => return None,
        Some(r) => r,
    };
    let target = canonical_session_id(task.target_session.as_str(), task.bundle_name.as_str());
    let mut message = String::from_str("message ");
    message.append(task.message_id.as_str());
    message.append(" to ");
    message.append(target.as_str());
    message.append(" was dropped on relay shutdown");
    proof {
        reveal_strlit("message ");
        reveal_strlit(" to ");
        reveal_strlit(" was dropped on relay shutdown");
    }
    let mut recipients: Vec<String> = Vec::new();
    recipients.push(canonical_session_id(route.member.id.as_str(), task.sender_namespace.as_str()));
    assert(recipients@.map_values(|s: String| s@) =~= seq![
        spec_canonical(route.member.id@, task.sender_namespace@),
    ]);
    Some(
        AsyncDeliveryTask {
            bundle_name: task.sender_namespace.clone(),
            sender_namespace: task.sender_namespace.clone(),
            sender_session: task.sender_session.clone(),
            sender_display_name: None,
            authenticated_identity: None,
            on_behalf_of: None,
            all_target_sessions: recipients,
            target_session: route.member.id.clone(),
            target_is_ui: false,
            message_id: task.message_id.clone(),
            message,
            quiescence: task.quiescence,
            payload_mode: DeliveryPayloadMode::EnvelopeMessage,
            append_enter: true,
            is_receipt: true,
            runtime_directory: route.runtime_directory.clone(),
            choice_decider_sessions: Vec::new(),
            sender_return_route: None,
        },
    )
}

/// One rendered envelope handed to a transport.
#[derive(Debug)]
pub struct DeliveryEnvelope {
    pub message_id: String,
    pub payload_mode: DeliveryPayloadMode,
    pub rendered: String,
    pub append_enter: bool,
}

/// Why a wait for the target to be ready ended early.
pub enum DeliveryWaitError {
    Timeout { timeout_ms: u64, readiness_mismatch: bool, mismatch_reason: Option<String> },
    Failed { reason: String },
    Shutdown,
}

/// Where a non-UI target's delivery goes.
#[derive(Clone, Copy, Debug, PartialEq, Eq, Structural)]
pub enum DeliveryPath {
    Acp,
    Tmux,
    Pty,
}

/// What an ACP delivery hands the transport: one combined envelope, or, when
/// no prompt was rendered, the failure reported without calling it.
#[derive(Debug)]
pub enum AcpDelivery {
    Envelope(DeliveryEnvelope),
    NoPrompt(SendResult),
}

/// The quiescence settings of an async delivery.
#[derive(Clone, Copy, Debug, PartialEq, Eq, Structural)]
pub struct QuiescenceOptions {
    pub quiet_window_ms: u64,
}

/// The quiet window used when a request names none (or names zero).
pub const QUIET_WINDOW_MS_DEFAULT: u64 = 750;

pub open spec fn result_view(
    target_session: Seq<char>,
    message_id: Seq<char>,
    outcome: SendOutcome,
    reason_code: Option<Seq<char>>,
    reason: Option<Seq<char>>,
    details: Option<Seq<DetailView>>,
) -> SendResultView {
    SendResultView { target_session, message_id, outcome, reason_code, reason, details }
}

impl QuiescenceOptions {
    /// The settings of an async delivery: a positive requested quiet window
    /// is kept, anything else falls back to the default.
    pub fn for_async(quiet_window_ms: Option<u64>) -> (options: Self)
        ensures
            options.quiet_window_ms == (match quiet_window_ms {
                Some(ms) => if ms > 0 {
                    ms
                } else {
                    QUIET_WINDOW_MS_DEFAULT
                },
                None => QUIET_WINDOW_MS_DEFAULT,
            }),
    {
        let quiet_window_ms = match quiet_window_ms {
            Some(ms) => if ms > 0 {
                ms
            } else {
                QUIET_WINDOW_MS_DEFAULT
            },
            None => QUIET_WINDOW_MS_DEFAULT,
        };
        QuiescenceOptions { quiet_window_ms }
    }
}

impl SendResult {
    /// A copy of this result.
    pub fn copy(&self) -> (copy: Self)
        ensures
            copy@ == self@,
    {
        SendResult {
            target_session: self.target_session.clone(),
            message_id: self.message_id.clone(),
            outcome: self.outcome,
            reason_code: match &self.reason_code {
                None => None,
                Some(c) => Some(c.clone()),
            },
            reason: match &self.reason {
                None => None,
                Some(r) => Some(r.clone()),
            },
            details: copy_details(&self.details),
        }
    }
}

/// A delivered result.
pub fn delivered_result(target_session: String, message_id: String) -> (result: SendResult)
    ensures
        result@ == result_view(
            target_session@,
            message_id@,
            SendOutcome::Delivered,
            None,
            None,
            None,
        ),
{
    SendResult {
        target_session,
        message_id,
        outcome: SendOutcome::Delivered,
        reason_code: None,
        reason: None,
        details: None,
    }
}

/// A delivered result whose turn is still in progress on the target.
pub fn delivered_in_progress_result(target_session: String, message_id: String) -> (result:
    SendResult)
    ensures
        result@ == result_view(
            target_session@,
            message_id@,
            SendOutcome::Delivered,
            None,
            None,
            Some(seq![text_detail("delivery_phase"@, "accepted_in_progress"@)]),
        ),
{
    SendResult {
        target_session,
        message_id,
        outcome: SendOutcome::Delivered,
        reason_code: None,
        reason: None,
        details: one_detail(text_field("delivery_phase", "accepted_in_progress")),
    }
}

/// A failed result with a reason.
pub fn failed_result(target_session: String, message_id: String, reason: String) -> (result:
    SendResult)
    ensures
        result@ == result_view(
            target_session@,
            message_id@,
            SendOutcome::Failed,
            None,
            Some(reason@),
            None,
        ),
{
    SendResult {
        target_session,
        message_id,
        outcome: SendOutcome::Failed,
        reason_code: None,
        reason: Some(reason),
        details: None,
    }
}

/// A failed result with a code, a reason and details.
pub fn failed_result_with_code(
    target_session: String,
    message_id: String,
    reason_code: &str,
    reason: String,
    details: Option<Vec<Detail>>,
) -> (result: SendResult)
    ensures
        result@ == result_view(
            target_session@,
            message_id@,
            SendOutcome::Failed,
            Some(reason_code@),
            Some(reason@),
            details_view(details),
        ),
{
    SendResult {
        target_session,
        message_id,
        outcome: SendOutcome::Failed,
        reason_code: Some(String::from_str(reason_code)),
        reason: Some(reason),
        details,
    }
}

/// A timed-out result.
pub fn timeout_result(
    target_session: String,
    message_id: String,
    reason_code: Option<&str>,
    reason: String,
) -> (result: SendResult)
    ensures
        result@ == result_view(
            target_session@,
            message_id@,
            SendOutcome::Timeout,
            match reason_code {
                None => None,
                Some(c) => Some(c@),
            },
            Some(reason@),
            None,
        ),
{
    SendResult {
        target_session,
        message_id,
        outcome: SendOutcome::Timeout,
        reason_code: match reason_code {
            None => None,
            Some(c) => Some(String::from_str(c)),
        },
        reason: Some(reason),
        details: None,
    }
}

/// The result a send reports for a target whose task was queued.
pub fn queued_result(target_session: String, message_id: String) -> (result: SendResult)
    ensures
        result@ == result_view(target_session@, message_id@, SendOutcome::Queued, None, None, None),
{
    SendResult {
        target_session,
        message_id,
        outcome: SendOutcome::Queued,
        reason_code: None,
        reason: None,
        details: None,
    }
}

/// The result reported from a transport's answer: its first outcome, or, when
/// it answered with none, a failure for the given target and message.
pub fn single_outcome_to_send_result(
    outcomes: Vec<SendResult>,
    target_session: String,
    message_id: String,
) -> (result: SendResult)
    ensures
        outcomes@.len() > 0 ==> result@ == outcomes@[0]@,
        outcomes@.len() == 0 ==> result@ == result_view(
            target_session@,
            message_id@,
            SendOutcome::Failed,
            Some("internal_unexpected_failure"@),
            Some("ACP delivery produced no outcome"@),
            None,
        ),
{
    let mut outcomes = outcomes;
    if outcomes.len() > 0 {
        outcomes.remove(0)
    } else {
        SendResult {
            target_session,
            message_id,
            outcome: SendOutcome::Failed,
            reason_code: Some(String::from_str("internal_unexpected_failure")),
            reason: Some(String::from_str("ACP delivery produced no outcome")),
            details: None,
        }
    }
}

/// One outcome fanned out over a coalesced batch: every task gets the
/// template's outcome, reason and details under its own target and message id.
pub fn replicate_outcome_for_batch(batch: &Vec<AsyncDeliveryTask>, template: &SendResult) -> (results:
    Vec<SendResult>)
    ensures
        results@.len() == batch@.len(),
        forall|k: int|
            0 <= k < batch@.len() ==> #[trigger] results@[k]@ == (SendResultView {
                target_session: batch@[k].target_session@,
                message_id: batch@[k].message_id@,
                ..template@
            }),
{
    let mut results: Vec<SendResult> = Vec::new();
    let mut i: usize = 0;
    while i < batch.len()
        invariant
            i <= batch@.len(),
            results@.len() == i,
            forall|k: int|
                0 <= k < i ==> #[trigger] results@[k]@ == (SendResultView {
                    target_session: batch@[k].target_session@,
                    message_id: batch@[k].message_id@,
                    ..template@
                }),
        decreases batch@.len() - i,
    {
        let copy = template.copy();
        results.push(
            SendResult {
                target_session: batch[i].target_session.clone(),
                message_id: batch[i].message_id.clone(),
                outcome: copy.outcome,
                reason_code: copy.reason_code,
                reason: copy.reason,
                details: copy.details,
            },
        );
        i = i + 1;
    }
    results
}

/// The message a timed-out wait is reported with.
pub open spec fn timeout_reason(
    timeout_ms: u64,
    readiness_mismatch: bool,
    mismatch_reason: Option<Seq<char>>,
) -> Seq<char> {
    if readiness_mismatch {
        "prompt readiness did not match before timeout after "@ + decimal(timeout_ms as nat) + "ms"@
            + match mismatch_reason {
            None => Seq::<char>::empty(),
            Some(r) => ": "@ + r,
        }
    } else {
        "quiescence wait timed out after "@ + decimal(timeout_ms as nat) + "ms"@
    }
}

/// The result a batch is given when the wait for its target ended early.
pub fn wait_error_to_send_result(task: &AsyncDeliveryTask, error: DeliveryWaitError) -> (result:
    SendResult)
    ensures
        error matches DeliveryWaitError::Timeout { timeout_ms, readiness_mismatch, mismatch_reason }
            ==> result@ == result_view(
            task.target_session@,
            task.message_id@,
            SendOutcome::Timeout,
            None,
            Some(timeout_reason(timeout_ms, readiness_mismatch, text_opt(mismatch_reason))),
            None,
        ),
        error matches DeliveryWaitError::Failed { reason } ==> result@ == result_view(
            task.target_session@,
            task.message_id@,
            SendOutcome::Failed,
            None,
            Some(reason@),
            None,
        ),
        error is Shutdown ==> result@ == result_view(
            task.target_session@,
            task.message_id@,
            SendOutcome::DroppedOnShutdown,
            Some("dropped_on_shutdown"@),
            Some("relay shutdown requested before delivery"@),
            None,
        ),
{
    match error {
        DeliveryWaitError::Timeout { timeout_ms, readiness_mismatch, mismatch_reason } => {
            let ghost m = text_opt(mismatch_reason);
            let mut reason = if readiness_mismatch {
                String::from_str("prompt readiness did not match before timeout after ")
            } else {
                String::from_str("quiescence wait timed out after ")
            };
            let ghost lead = reason@;
            push_decimal(&mut reason, timeout_ms);
            reason.append("ms");
            let ghost stem = reason@;
            assert(stem =~= lead + decimal(timeout_ms as nat) + "ms"@);
            if readiness_mismatch {
                if let Some(detail) = mismatch_reason {
                    reason.append(": ");
                    reason.append(detail.as_str());
                    assert(reason@ =~= stem + (": "@ + detail@));
                } else {
                    assert(reason@ =~= stem + Seq::<char>::empty());
                }
            }
            assert(reason@ =~= timeout_reason(timeout_ms, readiness_mismatch, m));
            SendResult {
                target_session: task.target_session.clone(),
                message_id: task.message_id.clone(),
                outcome: SendOutcome::Timeout,
                reason_code: None,
                reason: Some(reason),
                details: None,
            }
        },
        DeliveryWaitError::Failed { reason } => SendResult {
            target_session: task.target_session.clone(),
            message_id: task.message_id.clone(),
            outcome: SendOutcome::Failed,
            reason_code: None,
            reason: Some(reason),
            details: None,
        },
        DeliveryWaitError::Shutdown => SendResult {
            target_session: task.target_session.clone(),
            message_id: task.message_id.clone(),
            outcome: SendOutcome::DroppedOnShutdown,
            reason_code: Some(String::from_str("dropped_on_shutdown")),
            reason: Some(String::from_str("relay shutdown requested before delivery")),
            details: None,
        },
    }
}

/// Where a non-UI target's delivery goes: ACP, tmux and pty targets have a path;
/// UI and pubsub targets are refused as not implemented.
pub fn non_ui_delivery_path(target_member: &BundleMember) -> (path: Result<DeliveryPath, RelayError>)
    ensures
        target_member.target == SessionType::Acp ==> path == Ok::<DeliveryPath, RelayError>(
            DeliveryPath::Acp,
        ),
        target_member.target == SessionType::Tmux ==> path == Ok::<DeliveryPath, RelayError>(
            DeliveryPath::Tmux,
        ),
        target_member.target == SessionType::Pty ==> path == Ok::<DeliveryPath, RelayError>(
            DeliveryPath::Pty,
        ),
        (target_member.target == SessionType::Ui || target_member.target == SessionType::Pubsub)
            ==> path is Err && path->Err_0@ == error_view(
            "runtime_session_type_not_implemented"@,
            "session type delivery is not yet implemented"@,
            Some(
                seq![
                    text_detail("session_id"@, target_member.id@),
                    text_detail("session_type"@, session_type_name(target_member.target)),
                ],
            ),
        ),
{
    match target_member.target {
        SessionType::Acp => Ok(DeliveryPath::Acp),
        SessionType::Tmux => Ok(DeliveryPath::Tmux),
        SessionType::Pty => Ok(DeliveryPath::Pty),
        SessionType::Ui | SessionType::Pubsub => Err(
            session_type_not_implemented(target_member.id.as_str(), target_member.target),
        ),
    }
}

/// The envelopes a tmux delivery pastes: each rendered prompt batch of an
/// envelope message, always submitted with Enter; or the raw input, verbatim,
/// honoring the task's own Enter setting.
pub fn build_tmux_envelopes(head: &AsyncDeliveryTask, prompt_batches: Vec<String>) -> (envelopes:
    Vec<DeliveryEnvelope>)
    ensures
        head.payload_mode == DeliveryPayloadMode::EnvelopeMessage ==> {
            &&& envelopes@.len() == prompt_batches@.len()
            &&& forall|k: int|
                0 <= k < prompt_batches@.len() ==> {
                    let e = #[trigger] envelopes@[k];
                    &&& e.message_id@ == head.message_id@
                    &&& e.payload_mode == DeliveryPayloadMode::EnvelopeMessage
                    &&& e.rendered@ == prompt_batches@[k]@
                    &&& e.append_enter
                }
        },
        head.payload_mode == DeliveryPayloadMode::RawInput ==> {
            &&& envelopes@.len() == 1
            &&& envelopes@[0].message_id@ == head.message_id@
            &&& envelopes@[0].payload_mode == DeliveryPayloadMode::RawInput
            &&& envelopes@[0].rendered@ == head.message@
            &&& envelopes@[0].append_enter == head.append_enter
        },
{
    let mut envelopes: Vec<DeliveryEnvelope> = Vec::new();
    match head.payload_mode {
        DeliveryPayloadMode::EnvelopeMessage => {
            let mut rest = prompt_batches;
            let ghost batches = rest@;
            let total = rest.len();
            let mut i: usize = 0;
            while rest.len() > 0
                invariant
                    rest@.len() + i == total,
                    total == batches.len(),
                    forall|j: int| 0 <= j < rest@.len() ==> #[trigger] rest@[j] == batches[i + j],
                    envelopes@.len() == i,
                    forall|k: int|
                        0 <= k < i ==> {
                            let e = #[trigger] envelopes@[k];
                            &&& e.message_id@ == head.message_id@
                            &&& e.payload_mode == DeliveryPayloadMode::EnvelopeMessage
                            &&& e.rendered@ == batches[k]@
                            &&& e.append_enter
                        },
                decreases rest@.len(),
            {
                let rendered = rest.remove(0);
                envelopes.push(
                    DeliveryEnvelope {
                        message_id: head.message_id.clone(),
                        payload_mode: DeliveryPayloadMode::EnvelopeMessage,
                        rendered,
                        append_enter: true,
                    },
                );
                assert forall|j: int| 0 <= j < rest@.len() implies #[trigger] rest@[j]
                    == batches[i + 1 + j] by {}
                i = i + 1;
            }
        },
        DeliveryPayloadMode::RawInput => {
            envelopes.push(
                DeliveryEnvelope {
                    message_id: head.message_id.clone(),
                    payload_mode: DeliveryPayloadMode::RawInput,
                    rendered: head.message.clone(),
                    append_enter: head.append_enter,
                },
            );
        },
    }
    envelopes
}

/// What an ACP delivery hands its transport: the first rendered prompt as one
/// envelope, or, with no prompt rendered, a failure without a transport call.
pub fn deliver_acp_combined(head: &AsyncDeliveryTask, prompt_batches: Vec<String>) -> (delivery:
    AcpDelivery)
    ensures
        prompt_batches@.len() == 0 ==> (delivery matches AcpDelivery::NoPrompt(result) && result@
            == result_view(
            head.target_session@,
            head.message_id@,
            SendOutcome::Failed,
            None,
            Some("ACP delivery received no prompt batch"@),
            None,
        )),
        prompt_batches@.len() > 0 ==> (delivery matches AcpDelivery::Envelope(e)
            && e.message_id@ == head.message_id@ && e.payload_mode == head.payload_mode
            && e.rendered@ == prompt_batches@[0]@ && e.append_enter == head.append_enter),
{
    let mut prompts = prompt_batches;
    if prompts.len() == 0 {
        return AcpDelivery::NoPrompt(
            SendResult {
                target_session: head.target_session.clone(),
                message_id: head.message_id.clone(),
                outcome: SendOutcome::Failed,
                reason_code: None,
                reason: Some(String::from_str("ACP delivery received no prompt batch")),
                details: None,
            },
        );
    }
    let prompt = prompts.remove(0);
    AcpDelivery::Envelope(
        DeliveryEnvelope {
            message_id: head.message_id.clone(),
            payload_mode: head.payload_mode,
            rendered: prompt,
            append_enter: head.append_enter,
        },
    )
}

/// Records a delivered tmux task as its session serving successfully; any
/// other outcome leaves the history as it is.
pub fn note_tmux_delivered(
    history: &mut StartupFailureHistory,
    task: &AsyncDeliveryTask,
    send_result: &SendResult,
)
    ensures
        final(history).next() == old(history).next(),
        send_result.outcome == SendOutcome::Delivered ==> final(history).records() == old(
            history,
        ).records().filter(other_session(task.target_session@)),
        send_result.outcome != SendOutcome::Delivered ==> final(history).records() == old(
            history,
        ).records(),
{
    if send_result.outcome == SendOutcome::Delivered {
        note_session_served_successfully(history, task.target_session.as_str());
    }
}

/// The result for a member whose target stayed unreachable past the dwell:
/// never handed to a transport, so positively not submitted rather than
/// failed.
pub fn target_unreachable_result(task: &AsyncDeliveryTask, dwell_ms: u64) -> (result: SendResult)
    ensures
        result@ == result_view(
            task.target_session@,
            task.message_id@,
            SendOutcome::NotSubmitted,
            Some("delivery_target_unreachable"@),
            Some("target could not be reached for longer than the configured dwell"@),
            Some(seq![crate::errors::number_detail("unreachable_dwell_ms"@, dwell_ms)]),
        ),
{
    SendResult {
        target_session: task.target_session.clone(),
        message_id: task.message_id.clone(),
        outcome: SendOutcome::NotSubmitted,
        reason_code: Some(String::from_str("delivery_target_unreachable")),
        reason: Some(
            String::from_str("target could not be reached for longer than the configured dwell"),
        ),
        details: one_detail(crate::errors::number_field("unreachable_dwell_ms", dwell_ms)),
    }
}

} // verus!
