//! Queue entry state, delivery identities, and the relay-owned authorization
//! guard's evidence order.
//!
//! Lifecycle events (a panicked collector, a closed channel, shutdown, a bundle
//! stop, the execution bound) are *triggers*: none of them chooses an outcome.
//! They all route through one evidence order, so a member the relay can
//! positively prove was never handed to a transport resolves `not_submitted`
//! rather than being smeared into `submission_unknown`.
use vstd::prelude::*;

verus! {

/// The relay's outcome vocabulary for one delivery target.
#[derive(Clone, Copy, Debug, PartialEq, Eq, Structural)]
pub enum SendOutcome {
    Queued,
    Delivered,
    Failed,
    Timeout,
    DroppedOnShutdown,
    NotSubmitted,
    SubmissionUnknown,
    PeerUnavailable,
}

/// What is known about whether a member's packing unit reached its target.
#[derive(Clone, Copy, Debug, PartialEq, Eq, Structural)]
pub enum SubmissionEvidence {
    Submitted,
    NotSubmitted,
    SubmissionUnknown,
}

/// Where a queue entry sits in the delivery lifecycle. The three states are
/// ordered and the transitions are one-way.
#[derive(Clone, Copy, Debug, PartialEq, Eq, Structural)]
pub enum QueueEntryState {
    /// Admitted and waiting; leaves only by authorization, observed teardown or
    /// graceful shutdown, never by elapsed time.
    Pending,
    /// Delivery responsibility has irrevocably transferred.
    Authorized,
    /// Resolved exactly once; admission quota is released here and nowhere else.
    Terminal,
}

/// The identity of one packing unit: a group of members a transport wrote
/// together, which therefore share a fate.
#[derive(Clone, Copy, Debug, PartialEq, Eq, Structural)]
pub struct PackingUnitId {
    pub value: u64,
}

pub open spec fn evidence_outcome(evidence: SubmissionEvidence) -> SendOutcome {
    match evidence {
        SubmissionEvidence::Submitted => SendOutcome::Delivered,
        SubmissionEvidence::NotSubmitted => SendOutcome::NotSubmitted,
        SubmissionEvidence::SubmissionUnknown => SendOutcome::SubmissionUnknown,
    }
}

impl SubmissionEvidence {
    /// The relay outcome this evidence resolves to. `SubmissionUnknown` has no
    /// failure spelling: not knowing is what actually happened.
    pub fn outcome(self) -> (outcome: SendOutcome)
        ensures
            outcome == evidence_outcome(self),
    {
        match self {
            SubmissionEvidence::Submitted => SendOutcome::Delivered,
            SubmissionEvidence::NotSubmitted => SendOutcome::NotSubmitted,
            SubmissionEvidence::SubmissionUnknown => SendOutcome::SubmissionUnknown,
        }
    }

    /// The stable reason code carried on a receipt and in inscriptions.
    pub fn reason_code(self) -> (code: &'static str)
        ensures
            self == SubmissionEvidence::Submitted ==> code@ == "delivered"@,
            self == SubmissionEvidence::NotSubmitted ==> code@ == "not_submitted"@,
            self == SubmissionEvidence::SubmissionUnknown ==> code@ == "submission_unknown"@,
    {
        match self {
            SubmissionEvidence::Submitted => "delivered",
            SubmissionEvidence::NotSubmitted => "not_submitted",
            SubmissionEvidence::SubmissionUnknown => "submission_unknown",
        }
    }
}

/// A lifecycle event that terminalizes a guard without choosing its outcome.
#[derive(Clone, Copy, Debug, PartialEq, Eq, Structural)]
pub enum GuardTrigger {
    /// The collector task carrying this member panicked.
    CollectorPanic,
    /// The transport's outcome channel closed before resolving.
    ChannelClosed,
    /// The relay is shutting down gracefully.
    GracefulShutdown,
    /// This member's bundle is being torn down while the relay keeps serving.
    BundleStop,
    /// Relay-supervised execution ran past the submission bound and its fence
    /// reached a verdict with this member unresolved.
    ExecutionBound,
}

impl GuardTrigger {
    /// The reason recorded alongside the resolved outcome, naming the trigger
    /// rather than restating the evidence.
    pub fn reason(self) -> (reason: &'static str)
        ensures
            self == GuardTrigger::CollectorPanic ==> reason@
                == "delivery collector task panicked before resolving"@,
            self == GuardTrigger::ChannelClosed ==> reason@
                == "transport outcome channel closed before resolving"@,
            self == GuardTrigger::GracefulShutdown ==> reason@
                == "relay shut down before this member resolved"@,
            self == GuardTrigger::BundleStop ==> reason@
                == "bundle stopped before this member resolved"@,
            self == GuardTrigger::ExecutionBound ==> reason@
                == "relay execution exceeded the submission bound before this member resolved"@,
    {
        match self {
            GuardTrigger::CollectorPanic => "delivery collector task panicked before resolving",
            GuardTrigger::ChannelClosed => "transport outcome channel closed before resolving",
            GuardTrigger::GracefulShutdown => "relay shut down before this member resolved",
            GuardTrigger::BundleStop => "bundle stopped before this member resolved",
            GuardTrigger::ExecutionBound => {
                "relay execution exceeded the submission bound before this member resolved"
            },
        }
    }
}

/// The guard's single evidence order.
pub open spec fn spec_resolve_from_evidence(
    unit_evidence: Option<SubmissionEvidence>,
    unit: Option<PackingUnitId>,
) -> SubmissionEvidence {
    match unit_evidence {
        Some(recorded) => recorded,
        None => if unit is Some {
            SubmissionEvidence::SubmissionUnknown
        } else {
            SubmissionEvidence::NotSubmitted
        },
    }
}

/// The guard's single evidence order, applied whenever a trigger fires with no
/// outcome of its own:
///
/// 1. a recorded unit result, if the member's packing unit produced one;
/// 2. otherwise `not_submitted`, when the member was never bound to a unit — the
///    partition is recorded before the first target-side effect;
/// 3. otherwise `submission_unknown`, because partial effect cannot be excluded.
pub fn resolve_from_evidence(
    unit_evidence: Option<SubmissionEvidence>,
    unit: Option<PackingUnitId>,
) -> (evidence: SubmissionEvidence)
    ensures
        evidence == spec_resolve_from_evidence(unit_evidence, unit),
{
    match unit_evidence {
        Some(recorded) => recorded,
        None => match unit {
            Some(_) => SubmissionEvidence::SubmissionUnknown,
            None => SubmissionEvidence::NotSubmitted,
        },
    }
}

/// No trigger can turn a member that never reached a transport into anything
/// but `not_submitted`, and no trigger can make a bound member without a record
/// read as delivered or not submitted: the resolved outcome is never `failed`.
pub proof fn lemma_evidence_order_never_fails(
    unit_evidence: Option<SubmissionEvidence>,
    unit: Option<PackingUnitId>,
)
    ensures
        evidence_outcome(spec_resolve_from_evidence(unit_evidence, unit)) != SendOutcome::Failed,
        unit_evidence is None && unit is None ==> spec_resolve_from_evidence(unit_evidence, unit)
            == SubmissionEvidence::NotSubmitted,
        unit_evidence is None && unit is Some ==> spec_resolve_from_evidence(unit_evidence, unit)
            == SubmissionEvidence::SubmissionUnknown,
        unit_evidence is Some ==> spec_resolve_from_evidence(unit_evidence, unit)
            == unit_evidence.unwrap(),
{
}

/// The unit of authorization: authorizing a batch authorizes every member in it.
#[derive(Clone, Copy, Debug, PartialEq, Eq, Structural)]
pub struct BatchId {
    pub id: u64,
}

/// One authorization of one member, distinct from every other.
#[derive(Clone, Copy, Debug, PartialEq, Eq, Structural)]
pub struct AttemptId {
    pub id: u64,
}

/// The identities a member carries from authorization to resolution.
#[derive(Clone, Copy, Debug, PartialEq, Eq, Structural)]
pub struct GuardKey {
    pub batch: BatchId,
    pub attempt: AttemptId,
}

impl BatchId {
    pub fn value(self) -> (value: u64)
        ensures
            value == self.id,
    {
        self.id
    }
}

impl AttemptId {
    pub fn value(self) -> (value: u64)
        ensures
            value == self.id,
    {
        self.id
    }
}

/// The relay's source of process-local, monotonic delivery identities.
pub struct IdentityMinter {
    pub next_batch: u64,
    pub next_attempt: u64,
    pub next_unit: u64,
}

impl IdentityMinter {
    /// A minter whose first identities are all `1`.
    pub fn new() -> (minter: Self)
        ensures
            minter.next_batch == 1,
            minter.next_attempt == 1,
            minter.next_unit == 1,
    {
        IdentityMinter { next_batch: 1, next_attempt: 1, next_unit: 1 }
    }

    /// Mints the next batch id; every later one is strictly greater.
    pub fn mint_batch(&mut self) -> (batch: BatchId)
        requires
            old(self).next_batch < u64::MAX,
        ensures
            batch.id == old(self).next_batch,
            final(self).next_batch == old(self).next_batch + 1,
            final(self).next_attempt == old(self).next_attempt,
            final(self).next_unit == old(self).next_unit,
    {
        let batch = BatchId { id: self.next_batch };
        self.next_batch = self.next_batch + 1;
        batch
    }

    /// Mints the next attempt id; every later one is strictly greater.
    pub fn mint_attempt(&mut self) -> (attempt: AttemptId)
        requires
            old(self).next_attempt < u64::MAX,
        ensures
            attempt.id == old(self).next_attempt,
            final(self).next_attempt == old(self).next_attempt + 1,
            final(self).next_batch == old(self).next_batch,
            final(self).next_unit == old(self).next_unit,
    {
        let attempt = AttemptId { id: self.next_attempt };
        self.next_attempt = self.next_attempt + 1;
        attempt
    }

    /// Mints the next packing unit id; every later one is strictly greater.
    pub fn mint_unit(&mut self) -> (unit: PackingUnitId)
        requires
            old(self).next_unit < u64::MAX,
        ensures
            unit.value == old(self).next_unit,
            final(self).next_unit == old(self).next_unit + 1,
            final(self).next_batch == old(self).next_batch,
            final(self).next_attempt == old(self).next_attempt,
    {
        let unit = PackingUnitId { value: self.next_unit };
        self.next_unit = self.next_unit + 1;
        unit
    }
}

/// Why a worker is ending: the relay is exiting, or this worker's bundle is
/// being torn down while the relay keeps serving others.
#[derive(Clone, Copy, Debug, PartialEq, Eq, Structural)]
pub enum StopCause {
    Shutdown,
    BundleStop,
}

impl StopCause {
    /// The label recorded on this ending's generation-fence verdict.
    pub fn fence_trigger(self) -> (label: &'static str)
        ensures
            self == StopCause::Shutdown ==> label@ == "graceful_shutdown"@,
            self == StopCause::BundleStop ==> label@ == "bundle_stop"@,
    {
        match self {
            StopCause::Shutdown => "graceful_shutdown",
            StopCause::BundleStop => "bundle_stop",
        }
    }

    /// The trigger through which a member still unresolved at the verdict is
    /// terminalized.
    pub fn guard_trigger(self) -> (trigger: GuardTrigger)
        ensures
            self == StopCause::Shutdown ==> trigger == GuardTrigger::GracefulShutdown,
            self == StopCause::BundleStop ==> trigger == GuardTrigger::BundleStop,
    {
        match self {
            StopCause::Shutdown => GuardTrigger::GracefulShutdown,
            StopCause::BundleStop => GuardTrigger::BundleStop,
        }
    }
}

/// How a member still in a stopping worker's mailbox is resolved.
#[derive(Clone, Copy, Debug, PartialEq, Eq, Structural)]
pub enum StopResolution {
    /// Nothing was ever about to write it: it resolves `dropped_on_shutdown`.
    DroppedOnShutdown,
    /// A write may already have reached the target: it takes the evidence
    /// order, through this trigger.
    ByEvidence(GuardTrigger),
}

/// How a mailbox member is resolved when its worker stops: at a relay
/// shutdown, an entry that was never declared resolves `dropped_on_shutdown`
/// and a declared one must not, since a write may already have reached the
/// target; it takes the evidence order instead. At a bundle stop every entry
/// takes the evidence order, naming the bundle stop.
pub fn stop_resolution(declared: bool, cause: StopCause) -> (resolution: StopResolution)
    ensures
        !declared && cause == StopCause::Shutdown ==> resolution == StopResolution::DroppedOnShutdown,
        declared && cause == StopCause::Shutdown ==> resolution == StopResolution::ByEvidence(
            GuardTrigger::GracefulShutdown,
        ),
        cause == StopCause::BundleStop ==> resolution == StopResolution::ByEvidence(
            GuardTrigger::BundleStop,
        ),
        declared ==> resolution != StopResolution::DroppedOnShutdown,
{
    if declared || cause != StopCause::Shutdown {
        StopResolution::ByEvidence(cause.guard_trigger())
    } else {
        StopResolution::DroppedOnShutdown
    }
}

} // verus!
