//! The per-runtime-directory queue of pending permission requests.
//!
//! The queue is process-local state: the agent process is authoritative for
//! whether a request is still outstanding, so nothing here is persisted. Each
//! request carries a sequence number; the queue is kept in sequence order and
//! every sequence number is below the next one to be issued.
//!
//! Waking a waiter and telling UI sessions about a change are the host's work,
//! done with the records these operations hand back.
use vstd::prelude::*;
use vstd::string::*;

use crate::clock::{new_request_id, now_rfc3339};
use crate::text::{copy_string_vec, owned, str_eq};

verus! {

/// What a permission request offers: the details document the agent sent, and
/// the option ids a selection may name, in order.
#[derive(Debug)]
pub struct PermissionDetails {
    pub document: String,
    pub option_ids: Vec<String>,
}

#[derive(Debug)]
pub struct PendingPermissionRequest {
    pub permission_request_id: String,
    pub message_id: String,
    pub target_session: String,
    pub requested_kind: String,
    pub requested_details: PermissionDetails,
    pub enqueued_at: String,
    pub sequence: u64,
}

pub struct PendingRequestView {
    pub permission_request_id: Seq<char>,
    pub message_id: Seq<char>,
    pub target_session: Seq<char>,
    pub requested_kind: Seq<char>,
    pub document: Seq<char>,
    pub option_ids: Seq<Seq<char>>,
    pub enqueued_at: Seq<char>,
    pub sequence: u64,
}

impl View for PendingPermissionRequest {
    type V = PendingRequestView;

    open spec fn view(&self) -> PendingRequestView {
        PendingRequestView {
            permission_request_id: self.permission_request_id@,
            message_id: self.message_id@,
            target_session: self.target_session@,
            requested_kind: self.requested_kind@,
            document: self.requested_details.document@,
            option_ids: self.requested_details.option_ids@.map_values(|s: String| s@),
            enqueued_at: self.enqueued_at@,
            sequence: self.sequence,
        }
    }
}

/// How a pending request was resolved.
#[derive(Debug)]
pub enum PermissionResolutionOutcome {
    Selected { option_id: String, decided_by: String },
    Cancelled { decided_by: String, reason_code: String, reason: Option<String> },
}

pub enum ResolutionView {
    Selected { option_id: Seq<char>, decided_by: Seq<char> },
    Cancelled { decided_by: Seq<char>, reason_code: Seq<char>, reason: Option<Seq<char>> },
}

impl View for PermissionResolutionOutcome {
    type V = ResolutionView;

    open spec fn view(&self) -> ResolutionView {
        match self {
            PermissionResolutionOutcome::Selected { option_id, decided_by } => {
                ResolutionView::Selected { option_id: option_id@, decided_by: decided_by@ }
            },
            PermissionResolutionOutcome::Cancelled { decided_by, reason_code, reason } => {
                ResolutionView::Cancelled {
                    decided_by: decided_by@,
                    reason_code: reason_code@,
                    reason: match reason {
                        None => None,
                        Some(r) => Some(r@),
                    },
                }
            },
        }
    }
}

#[derive(Clone, Copy, Debug, PartialEq, Eq, Structural)]
pub enum PermissionDecisionKind {
    Selected,
    Cancelled,
}

/// An operator's decision on one pending request.
pub struct PermissionDecisionRequest {
    pub permission_request_id: String,
    pub option_id: Option<String>,
    pub decision: PermissionDecisionKind,
    pub decided_by: String,
}

/// A resolved request: the record that left the queue and how it resolved.
#[derive(Debug)]
pub struct PermissionResolution {
    pub record: PendingPermissionRequest,
    pub outcome: PermissionResolutionOutcome,
}

/// What a shutdown cancellation hands back: the record that left the queue,
/// if one was pending, and the outcome owed its waiter.
pub struct ShutdownCancellation {
    pub record: Option<PendingPermissionRequest>,
    pub outcome: PermissionResolutionOutcome,
}

/// Pending requests sorted by strictly increasing sequence, all below `next`.
pub open spec fn queue_ordered(next: u64, pending: Seq<PendingRequestView>) -> bool {
    &&& forall|i: int, j: int|
        0 <= i < j < pending.len() ==> pending[i].sequence < pending[j].sequence
    &&& forall|i: int| 0 <= i < pending.len() ==> pending[i].sequence < next
}

/// The first pending position holding `id`, or `-1`.
pub open spec fn first_with_id(pending: Seq<PendingRequestView>, id: Seq<char>) -> int
    decreases pending.len(),
{
    if pending.len() == 0 {
        -1
    } else if pending[0].permission_request_id == id {
        0
    } else {
        let rest = first_with_id(pending.drop_first(), id);
        if rest < 0 {
            -1
        } else {
            rest + 1
        }
    }
}

/// The pending requests that do not target `target_session`, in order.
pub open spec fn without_target(pending: Seq<PendingRequestView>, target_session: Seq<char>) -> Seq<
    PendingRequestView,
>
    decreases pending.len(),
{
    if pending.len() == 0 {
        seq![]
    } else {
        let rest = without_target(pending.drop_last(), target_session);
        if pending.last().target_session == target_session {
            rest
        } else {
            rest.push(pending.last())
        }
    }
}

/// The pending requests that do target `target_session`, in order.
pub open spec fn with_target(pending: Seq<PendingRequestView>, target_session: Seq<char>) -> Seq<
    PendingRequestView,
>
    decreases pending.len(),
{
    if pending.len() == 0 {
        seq![]
    } else {
        let rest = with_target(pending.drop_last(), target_session);
        if pending.last().target_session == target_session {
            rest.push(pending.last())
        } else {
            rest
        }
    }
}

pub proof fn lemma_first_with_id(pending: Seq<PendingRequestView>, id: Seq<char>)
    ensures
        -1 <= first_with_id(pending, id) < pending.len(),
        first_with_id(pending, id) >= 0 ==> pending[first_with_id(pending, id)].permission_request_id
            == id,
        forall|j: int|
            0 <= j < pending.len() && (first_with_id(pending, id) < 0 || j < first_with_id(
                pending,
                id,
            )) ==> pending[j].permission_request_id != id,
    decreases pending.len(),
{
    if pending.len() > 0 && pending[0].permission_request_id != id {
        lemma_first_with_id(pending.drop_first(), id);
        assert forall|j: int|
            0 <= j < pending.len() && (first_with_id(pending, id) < 0 || j < first_with_id(
                pending,
                id,
            )) implies pending[j].permission_request_id != id by {
            if j > 0 {
                assert(pending[j] == pending.drop_first()[j - 1]);
            }
        }
    }
}

/// Sequence order survives removing any one request.
pub proof fn lemma_remove_keeps_order(next: u64, pending: Seq<PendingRequestView>, i: int)
    requires
        queue_ordered(next, pending),
        0 <= i < pending.len(),
    ensures
        queue_ordered(next, pending.remove(i)),
{
    let after = pending.remove(i);
    assert forall|a: int, b: int| 0 <= a < b < after.len() implies after[a].sequence
        < after[b].sequence by {
        let a0 = if a < i { a } else { a + 1 };
        let b0 = if b < i { b } else { b + 1 };
        assert(after[a] == pending[a0]);
        assert(after[b] == pending[b0]);
    }
    assert forall|a: int| 0 <= a < after.len() implies after[a].sequence < next by {
        let a0 = if a < i { a } else { a + 1 };
        assert(after[a] == pending[a0]);
    }
}

impl PendingPermissionRequest {
    /// A copy of this request.
    pub fn copy(&self) -> (copy: Self)
        ensures
            copy@ == self@,
    {
        PendingPermissionRequest {
            permission_request_id: self.permission_request_id.clone(),
            message_id: self.message_id.clone(),
            target_session: self.target_session.clone(),
            requested_kind: self.requested_kind.clone(),
            requested_details: PermissionDetails {
                document: self.requested_details.document.clone(),
                option_ids: copy_string_vec(&self.requested_details.option_ids),
            },
            enqueued_at: self.enqueued_at.clone(),
            sequence: self.sequence,
        }
    }
}

/// The option ids a selection on `record` may name.
pub fn pending_permission_option_ids(record: &PendingPermissionRequest) -> (ids: Vec<String>)
    ensures
        ids@.map_values(|s: String| s@) == record@.option_ids,
{
    copy_string_vec(&record.requested_details.option_ids)
}

/// Whether `option_id` is one of `options`.
fn option_offered(options: &Vec<String>, option_id: &str) -> (offered: bool)
    ensures
        offered == options@.map_values(|s: String| s@).contains(option_id@),
{
    let ghost ids = options@.map_values(|s: String| s@);
    let mut i: usize = 0;
    while i < options.len()
        invariant
            i <= options@.len(),
            ids == options@.map_values(|s: String| s@),
            forall|j: int| 0 <= j < i ==> ids[j] != option_id@,
        decreases options@.len() - i,
    {
        if str_eq(options[i].as_str(), option_id) {
            assert(ids[i as int] == option_id@);
            return true;
        }
        i = i + 1;
    }
    false
}

pub open spec fn queue_full_code() -> Seq<char> {
    "runtime_permission_queue_full"@
}

/// The cause reported when no fresh request id can be drawn from the
/// operating system's random source.
pub open spec fn random_source_code() -> Seq<char> {
    "internal_unexpected_failure"@
}

pub open spec fn already_resolved_code() -> Seq<char> {
    "runtime_permission_request_already_resolved"@
}

/// The error a selection naming an option the request does not offer gets.
pub open spec fn unknown_option_error(option_id: Seq<char>) -> Seq<char> {
    "validation_invalid_params: selected option_id '"@ + option_id
        + "' is not present in pending permission options"@
}

/// The queue of pending permission requests for one runtime directory.
pub struct PermissionQueue {
    next_sequence: u64,
    pending: Vec<PendingPermissionRequest>,
}

impl PermissionQueue {
    #[verifier::type_invariant]
    closed spec fn ordered(&self) -> bool {
        queue_ordered(self.next_sequence, self.pending@.map_values(|r: PendingPermissionRequest| r@))
    }

    /// The sequence number the next request will be given.
    pub closed spec fn next(&self) -> u64 {
        self.next_sequence
    }

    /// The pending requests, in sequence order.
    pub closed spec fn requests(&self) -> Seq<PendingRequestView> {
        self.pending@.map_values(|r: PendingPermissionRequest| r@)
    }

    /// The sequence number the next request will be given.
    pub fn next_sequence(&self) -> (next: u64)
        ensures
            next == self.next(),
    {
        self.next_sequence
    }

    /// An empty queue whose first request gets sequence 1.
    pub fn new() -> (queue: Self)
        ensures
            queue.next() == 1,
            queue.requests() == Seq::<PendingRequestView>::empty(),
    {
        let queue = PermissionQueue { next_sequence: 1, pending: Vec::new() };
        assert(queue.requests() =~= Seq::<PendingRequestView>::empty());
        queue
    }

    /// The queue is always in sequence order, below the next sequence number.
    pub fn is_ordered(&self) -> (ordered: bool)
        ensures
            ordered,
            queue_ordered(self.next(), self.requests()),
    {
        proof {
            use_type_invariant(self);
        }
        true
    }

    /// Copies of every pending request, in sequence order.
    pub fn list_pending_permission_requests(&self) -> (pending: Vec<PendingPermissionRequest>)
        ensures
            pending@.map_values(|r: PendingPermissionRequest| r@) == self.requests(),
    {
        let mut out: Vec<PendingPermissionRequest> = Vec::new();
        let mut i: usize = 0;
        while i < self.pending.len()
            invariant
                i <= self.pending@.len(),
                out@.len() == i,
                forall|j: int| 0 <= j < i ==> #[trigger] out@[j]@ == self.pending@[j]@,
            decreases self.pending@.len() - i,
        {
            out.push(self.pending[i].copy());
            i = i + 1;
        }
        assert(out@.map_values(|r: PendingPermissionRequest| r@) =~= self.requests());
        out
    }

    /// Appends a request under the next sequence number.
    fn append(&mut self, mut record: PendingPermissionRequest) -> (stored: PendingPermissionRequest)
        requires
            old(self).next() < u64::MAX,
        ensures
            stored@ == (PendingRequestView { sequence: old(self).next(), ..record@ }),
            final(self).next() == old(self).next() + 1,
            final(self).requests() == old(self).requests().push(stored@),
    {
        proof {
            use_type_invariant(&*self);
        }
        record.sequence = self.next_sequence;
        let stored = record.copy();
        let mut pending: Vec<PendingPermissionRequest> = Vec::new();
        std::mem::swap(&mut pending, &mut self.pending);
        let ghost before = pending@.map_values(|r: PendingPermissionRequest| r@);
        pending.push(record);
        proof {
            let after = pending@.map_values(|r: PendingPermissionRequest| r@);
            assert(after =~= before.push(stored@));
            assert forall|i: int, j: int| 0 <= i < j < after.len() implies after[i].sequence
                < after[j].sequence by {
                if j == after.len() - 1 {
                    assert(after[i] == before[i]);
                } else {
                    assert(after[i] == before[i]);
                    assert(after[j] == before[j]);
                }
            }
            assert forall|i: int| 0 <= i < after.len() implies after[i].sequence
                < self.next_sequence + 1 by {
                if i < before.len() {
                    assert(after[i] == before[i]);
                }
            }
        }
        self.next_sequence = self.next_sequence + 1;
        self.pending = pending;
        stored
    }

    /// Enqueues a request under the given id and timestamp, unless
    /// `max_pending` requests are already waiting.
    pub fn enqueue_with(
        &mut self,
        permission_request_id: String,
        message_id: &str,
        target_session: &str,
        requested_kind: &str,
        requested_details: PermissionDetails,
        enqueued_at: String,
        max_pending: usize,
    ) -> (stored: Result<PendingPermissionRequest, String>)
        requires
            old(self).next() < u64::MAX,
        ensures
            old(self).requests().len() >= max_pending ==> {
                &&& stored is Err
                &&& stored->Err_0@ == queue_full_code()
                &&& final(self).requests() == old(self).requests()
                &&& final(self).next() == old(self).next()
            },
            old(self).requests().len() < max_pending ==> {
                &&& stored is Ok
                &&& stored->Ok_0@ == (PendingRequestView {
                    permission_request_id: permission_request_id@,
                    message_id: message_id@,
                    target_session: target_session@,
                    requested_kind: requested_kind@,
                    document: requested_details.document@,
                    option_ids: requested_details.option_ids@.map_values(|s: String| s@),
                    enqueued_at: enqueued_at@,
                    sequence: old(self).next(),
                })
                &&& final(self).requests() == old(self).requests().push(stored->Ok_0@)
                &&& final(self).next() == old(self).next() + 1
            },
    {
        if self.pending.len() >= max_pending {
            return Err(String::from_str("runtime_permission_queue_full"));
        }
        let record = PendingPermissionRequest {
            permission_request_id,
            message_id: owned(message_id),
            target_session: owned(target_session),
            requested_kind: owned(requested_kind),
            requested_details,
            enqueued_at,
            sequence: 0,
        };
        Ok(self.append(record))
    }

    /// Enqueues a request under a fresh random id, stamped with the current
    /// time, unless `max_pending` requests are already waiting. When the
    /// random source gives no id, nothing is enqueued and the cause is
    /// `internal_unexpected_failure`.
    pub fn enqueue_permission_request(
        &mut self,
        message_id: &str,
        target_session: &str,
        requested_kind: &str,
        requested_details: PermissionDetails,
        max_pending: usize,
    ) -> (stored: Result<PendingPermissionRequest, String>)
        requires
            old(self).next() < u64::MAX,
        ensures
            old(self).requests().len() >= max_pending ==> stored is Err && stored->Err_0@
                == queue_full_code() && final(self).requests() == old(self).requests(),
            old(self).requests().len() < max_pending && stored is Err ==> stored->Err_0@
                == random_source_code() && final(self).requests() == old(self).requests(),
            old(self).requests().len() < max_pending && stored is Ok ==> {
                &&& stored->Ok_0@.message_id == message_id@
                &&& stored->Ok_0@.target_session == target_session@
                &&& stored->Ok_0@.requested_kind == requested_kind@
                &&& stored->Ok_0@.document == requested_details.document@
                &&& stored->Ok_0@.option_ids == requested_details.option_ids@.map_values(
                    |s: String| s@,
                )
                &&& stored->Ok_0@.sequence == old(self).next()
                &&& final(self).requests() == old(self).requests().push(stored->Ok_0@)
            },
    {
        if self.pending.len() >= max_pending {
            let full = String::from_str("runtime_permission_queue_full");
            proof {
                reveal_strlit("runtime_permission_queue_full");
            }
            return Err(full);
        }
        let id = match new_request_id() {
            Some(id) => id,
            None => {
                let cause = String::from_str("internal_unexpected_failure");
                proof {
                    reveal_strlit("internal_unexpected_failure");
                }
                return Err(cause);
            },
        };
        let enqueued_at = now_rfc3339();
        self.enqueue_with(
            id,
            message_id,
            target_session,
            requested_kind,
            requested_details,
            enqueued_at,
            max_pending,
        )
    }

    /// Pre-seeds a request under a caller-chosen id and timestamp, with the
    /// next sequence number and no pending limit.
    pub fn install_pending_permission_request_for_testing(
        &mut self,
        permission_request_id: &str,
        message_id: &str,
        target_session: &str,
        requested_kind: &str,
        requested_details: PermissionDetails,
        enqueued_at: String,
    ) -> (stored: PendingPermissionRequest)
        requires
            old(self).next() < u64::MAX,
        ensures
            stored@.permission_request_id == permission_request_id@,
            stored@.sequence == old(self).next(),
            final(self).requests() == old(self).requests().push(stored@),
    {
        let record = PendingPermissionRequest {
            permission_request_id: owned(permission_request_id),
            message_id: owned(message_id),
            target_session: owned(target_session),
            requested_kind: owned(requested_kind),
            requested_details,
            enqueued_at,
            sequence: 0,
        };
        self.append(record)
    }

    /// Removes the first pending request holding `id`.
    fn take(&mut self, id: &str) -> (taken: Option<PendingPermissionRequest>)
        ensures
            final(self).next() == old(self).next(),
            first_with_id(old(self).requests(), id@) < 0 ==> taken is None && final(self).requests()
                == old(self).requests(),
            first_with_id(old(self).requests(), id@) >= 0 ==> {
                &&& taken is Some
                &&& taken.unwrap()@ == old(self).requests()[first_with_id(
                    old(self).requests(),
                    id@,
                )]
                &&& final(self).requests() == old(self).requests().remove(
                    first_with_id(old(self).requests(), id@),
                )
            },
    {
        proof {
            use_type_invariant(&*self);
            lemma_first_with_id(self.requests(), id@);
        }
        let mut pending: Vec<PendingPermissionRequest> = Vec::new();
        std::mem::swap(&mut pending, &mut self.pending);
        let ghost before = pending@.map_values(|r: PendingPermissionRequest| r@);
        let n = pending.len();
        let mut i: usize = 0;
        while i < n
            invariant
                n == pending@.len(),
                i <= n,
                before == pending@.map_values(|r: PendingPermissionRequest| r@),
                before == old(self).requests(),
                self.next_sequence == old(self).next(),
                queue_ordered(self.next_sequence, before),
                forall|j: int| 0 <= j < i ==> before[j].permission_request_id != id@,
                -1 <= first_with_id(before, id@) < before.len(),
                first_with_id(before, id@) >= 0 ==> before[first_with_id(
                    before,
                    id@,
                )].permission_request_id == id@,
                forall|j: int|
                    0 <= j < before.len() && (first_with_id(before, id@) < 0 || j < first_with_id(
                        before,
                        id@,
                    )) ==> before[j].permission_request_id != id@,
            decreases n - i,
        {
            if str_eq(pending[i].permission_request_id.as_str(), id) {
                assert(before[i as int] == pending@[i as int]@);
                let taken = pending.remove(i);
                proof {
                    lemma_remove_keeps_order(self.next_sequence, before, i as int);
                    assert(pending@.map_values(|r: PendingPermissionRequest| r@) =~= before.remove(
                        i as int,
                    ));
                }
                self.pending = pending;
                return Some(taken);
            }
            assert(before[i as int] == pending@[i as int]@);
            i = i + 1;
        }
        self.pending = pending;
        None
    }

    /// Resolves a pending request by an operator decision. The request leaves
    /// the queue whether or not the decision then validates: a selection must
    /// name an option the request offers.
    pub fn resolve_permission_request(&mut self, decision: PermissionDecisionRequest) -> (resolved:
        Result<PermissionResolution, String>)
        ensures
            final(self).next() == old(self).next(),
            first_with_id(old(self).requests(), decision.permission_request_id@) < 0 ==> {
                &&& resolved is Err
                &&& resolved->Err_0@ == already_resolved_code()
                &&& final(self).requests() == old(self).requests()
            },
            first_with_id(old(self).requests(), decision.permission_request_id@) >= 0 ==> {
                let i = first_with_id(old(self).requests(), decision.permission_request_id@);
                let record = old(self).requests()[i];
                &&& final(self).requests() == old(self).requests().remove(i)
                &&& decision.decision == PermissionDecisionKind::Selected && decision.option_id
                    is None ==> resolved is Err && resolved->Err_0@
                    == "validation_invalid_params: selected outcome requires explicit option_id"@
                &&& decision.decision == PermissionDecisionKind::Selected && decision.option_id
                    is Some && !record.option_ids.contains(decision.option_id.unwrap()@)
                    ==> resolved is Err && resolved->Err_0@ == unknown_option_error(
                    decision.option_id.unwrap()@,
                )
                &&& decision.decision == PermissionDecisionKind::Selected && decision.option_id
                    is Some && record.option_ids.contains(decision.option_id.unwrap()@)
                    ==> resolved is Ok && resolved->Ok_0.record@ == record
                    && resolved->Ok_0.outcome@ == (ResolutionView::Selected {
                    option_id: decision.option_id.unwrap()@,
                    decided_by: decision.decided_by@,
                })
                &&& decision.decision == PermissionDecisionKind::Cancelled ==> resolved is Ok
                    && resolved->Ok_0.record@ == record && resolved->Ok_0.outcome@
                    == (ResolutionView::Cancelled {
                    decided_by: decision.decided_by@,
                    reason_code: "runtime_permission_request_cancelled"@,
                    reason: Some("permission request was cancelled by UI decision"@),
                })
            },
    {
        let record = match self.take(decision.permission_request_id.as_str()) {
            None => {
                return Err(String::from_str("runtime_permission_request_already_resolved"));
            },
            Some(record) => record,
        };
        let outcome = match decision.decision {
            PermissionDecisionKind::Selected => {
                let option_id = match decision.option_id {
                    None => {
                        return Err(
                            String::from_str(
                                "validation_invalid_params: selected outcome requires explicit option_id",
                            ),
                        );
                    },
                    Some(option_id) => option_id,
                };
                if !option_offered(&record.requested_details.option_ids, option_id.as_str()) {
                    let mut message = String::from_str(
                        "validation_invalid_params: selected option_id '",
                    );
                    message.append(option_id.as_str());
                    message.append("' is not present in pending permission options");
                    return Err(message);
                }
                PermissionResolutionOutcome::Selected { option_id, decided_by: decision.decided_by }
            },
            PermissionDecisionKind::Cancelled => PermissionResolutionOutcome::Cancelled {
                decided_by: decision.decided_by,
                reason_code: String::from_str("runtime_permission_request_cancelled"),
                reason: Some(String::from_str("permission request was cancelled by UI decision")),
            },
        };
        Ok(PermissionResolution { record, outcome })
    }

    /// Cancels every pending request targeting `target_session`, because the
    /// agent behind it is being respawned and can no longer take a decision.
    /// Returns the invalidated requests, in order.
    pub fn invalidate_pending_for_respawn(&mut self, target_session: &str) -> (invalidated: Vec<
        PendingPermissionRequest,
    >)
        ensures
            final(self).next() == old(self).next(),
            final(self).requests() == without_target(old(self).requests(), target_session@),
            invalidated@.map_values(|r: PendingPermissionRequest| r@) == with_target(
                old(self).requests(),
                target_session@,
            ),
    {
        proof {
            use_type_invariant(&*self);
        }
        let mut pending: Vec<PendingPermissionRequest> = Vec::new();
        std::mem::swap(&mut pending, &mut self.pending);
        let ghost before = pending@.map_values(|r: PendingPermissionRequest| r@);
        let total = pending.len();
        let mut kept: Vec<PendingPermissionRequest> = Vec::new();
        let mut removed: Vec<PendingPermissionRequest> = Vec::new();
        let mut i: usize = 0;
        while pending.len() > 0
            invariant
                pending@.len() + i == total,
                before.len() == total,
                queue_ordered(self.next_sequence, before),
                forall|j: int| 0 <= j < pending@.len() ==> #[trigger] pending@[j]@ == before[i + j],
                kept@.map_values(|r: PendingPermissionRequest| r@) == without_target(
                    before.subrange(0, i as int),
                    target_session@,
                ),
                removed@.map_values(|r: PendingPermissionRequest| r@) == with_target(
                    before.subrange(0, i as int),
                    target_session@,
                ),
                queue_ordered(self.next_sequence, kept@.map_values(|r: PendingPermissionRequest| r@)),
                forall|k: int|
                    0 <= k < kept@.len() ==> #[trigger] kept@[k]@.sequence < (if i < total {
                        before[i as int].sequence as int
                    } else {
                        self.next_sequence as int
                    }),
            decreases pending@.len(),
        {
            let ghost prefix = before.subrange(0, i as int);
            let ghost kept_before = kept@.map_values(|r: PendingPermissionRequest| r@);
            let record = pending.remove(0);
            assert(record@ == before[i as int]);
            assert(before.subrange(0, i + 1).drop_last() =~= prefix);
            if str_eq(record.target_session.as_str(), target_session) {
                removed.push(record);
                assert(removed@.map_values(|r: PendingPermissionRequest| r@) =~= with_target(
                    prefix,
                    target_session@,
                ).push(before[i as int]));
            } else {
                kept.push(record);
                proof {
                    let kv = kept@.map_values(|r: PendingPermissionRequest| r@);
                    assert(kv =~= kept_before.push(before[i as int]));
                    assert forall|a: int, b: int| 0 <= a < b < kv.len() implies kv[a].sequence
                        < kv[b].sequence by {
                        if b == kv.len() - 1 {
                            assert(kv[a] == kept_before[a]);
                            assert(kept_before[a] == kept@[a]@);
                        } else {
                            assert(kv[a] == kept_before[a]);
                            assert(kv[b] == kept_before[b]);
                        }
                    }
                    assert forall|a: int| 0 <= a < kv.len() implies kv[a].sequence
                        < self.next_sequence by {
                        if a < kept_before.len() {
                            assert(kv[a] == kept_before[a]);
                        }
                    }
                }
            }
            proof {
                assert forall|k: int| 0 <= k < kept@.len() implies #[trigger] kept@[k]@.sequence < (
                if i + 1 < total {
                    before[i + 1].sequence as int
                } else {
                    self.next_sequence as int
                }) by {
                    if k < kept_before.len() {
                        assert(kept@[k]@ == kept_before[k]);
                    }
                }
            }
            assert forall|j: int| 0 <= j < pending@.len() implies #[trigger] pending@[j]@
                == before[i + 1 + j] by {}
            i = i + 1;
        }
        assert(before.subrange(0, total as int) =~= before);
        self.pending = kept;
        removed
    }

    /// Cancels one pending request because the relay is shutting down; a
    /// request already gone is reported as already resolved. Returns the
    /// cancelled record, if one was pending, and the outcome owed its waiter.
    pub fn cancel_permission_request_on_shutdown(&mut self, permission_request_id: &str)
        -> (cancelled: ShutdownCancellation)
        ensures
            final(self).next() == old(self).next(),
            first_with_id(old(self).requests(), permission_request_id@) < 0 ==> {
                &&& cancelled.record is None
                &&& final(self).requests() == old(self).requests()
                &&& cancelled.outcome@ == (ResolutionView::Cancelled {
                    decided_by: "relay"@,
                    reason_code: already_resolved_code(),
                    reason: Some("permission request was already resolved"@),
                })
            },
            first_with_id(old(self).requests(), permission_request_id@) >= 0 ==> {
                let i = first_with_id(old(self).requests(), permission_request_id@);
                &&& cancelled.record is Some
                &&& cancelled.record.unwrap()@ == old(self).requests()[i]
                &&& final(self).requests() == old(self).requests().remove(i)
                &&& cancelled.outcome@ == (ResolutionView::Cancelled {
                    decided_by: "relay"@,
                    reason_code: "runtime_permission_request_cancelled"@,
                    reason: Some("relay shutdown cancelled pending permission request"@),
                })
            },
    {
        match self.take(permission_request_id) {
            None => ShutdownCancellation {
                record: None,
                outcome: PermissionResolutionOutcome::Cancelled {
                    decided_by: String::from_str("relay"),
                    reason_code: String::from_str("runtime_permission_request_already_resolved"),
                    reason: Some(String::from_str("permission request was already resolved")),
                },
            },
            Some(record) => ShutdownCancellation {
                record: Some(record),
                outcome: PermissionResolutionOutcome::Cancelled {
                    decided_by: String::from_str("relay"),
                    reason_code: String::from_str("runtime_permission_request_cancelled"),
                    reason: Some(
                        String::from_str("relay shutdown cancelled pending permission request"),
                    ),
                },
            },
        }
    }
}

/// Invalidation for a respawn partitions the queue: every request for the
/// respawned session leaves it, every other request stays in order, and none
/// is lost or duplicated.
pub proof fn lemma_invalidation_partitions(
    pending: Seq<PendingRequestView>,
    target_session: Seq<char>,
)
    ensures
        without_target(pending, target_session).len() + with_target(pending, target_session).len()
            == pending.len(),
        forall|i: int|
            0 <= i < without_target(pending, target_session).len() ==> (#[trigger] without_target(
                pending,
                target_session,
            )[i]).target_session != target_session,
        forall|i: int|
            0 <= i < with_target(pending, target_session).len() ==> (#[trigger] with_target(
                pending,
                target_session,
            )[i]).target_session == target_session,
    decreases pending.len(),
{
    if pending.len() > 0 {
        lemma_invalidation_partitions(pending.drop_last(), target_session);
        let rest_out = without_target(pending.drop_last(), target_session);
        let rest_in = with_target(pending.drop_last(), target_session);
        let out = without_target(pending, target_session);
        let inn = with_target(pending, target_session);
        assert forall|i: int| 0 <= i < out.len() implies (#[trigger] out[i]).target_session
            != target_session by {
            if i < rest_out.len() {
                assert(out[i] == rest_out[i]);
            }
        }
        assert forall|i: int| 0 <= i < inn.len() implies (#[trigger] inn[i]).target_session
            == target_session by {
            if i < rest_in.len() {
                assert(inn[i] == rest_in[i]);
            }
        }
    }
}

/// A decision settles a request once: when request ids are distinct, the
/// request a resolution took is no longer pending, so a second decision on it
/// finds it already resolved.
pub proof fn lemma_resolution_is_final(pending: Seq<PendingRequestView>, id: Seq<char>)
    requires
        first_with_id(pending, id) >= 0,
        forall|a: int, b: int|
            0 <= a < pending.len() && 0 <= b < pending.len() && a != b
                ==> pending[a].permission_request_id != pending[b].permission_request_id,
    ensures
        first_with_id(pending.remove(first_with_id(pending, id)), id) < 0,
{
    lemma_first_with_id(pending, id);
    let i = first_with_id(pending, id);
    let after = pending.remove(i);
    lemma_first_with_id(after, id);
    if first_with_id(after, id) >= 0 {
        let k = first_with_id(after, id);
        let k0 = if k < i { k } else { k + 1 };
        assert(after[k] == pending[k0]);
    }
}

} // verus!
