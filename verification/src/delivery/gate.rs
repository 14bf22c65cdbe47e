//! Whether a target will take a handover right now.
//!
//! Reading a target and judging one are different jobs: the read needs a live
//! transport, while the judgement is three booleans and a duration. The
//! judgement lives here, stated once and checked directly.
use vstd::prelude::*;

verus! {

#[verifier::external_type_specification]
#[verifier::external_body]
pub struct ExInstant(std::time::Instant);

/// Milliseconds elapsed since `since`, read from the monotonic clock.
///
/// Wraps `std::time::Instant::elapsed`. What it returns depends on when it is
/// called, so nothing is stated of it.
#[verifier::external_body]
fn elapsed_millis(since: &std::time::Instant) -> u64 {
    since.elapsed().as_millis() as u64
}

/// A transport's own view of whether it can reach its target.
pub enum TransportHealth {
    Healthy,
    /// Continuously unreachable since the given instant.
    Unreachable { since: std::time::Instant },
}

/// The verdict for the member at the head of a target's queue.
#[derive(Clone, Copy, Debug, PartialEq, Eq, Structural)]
pub enum TargetGate {
    /// Healthy and ready: a batch may be formed and authorized against it.
    Open,
    /// Cannot take a handover yet; the member in hand is held untouched.
    Hold,
    /// Continuously unreachable past the dwell; the member is owed an outcome.
    Unreachable,
}

/// The activity comparison: whether `current` is an advance over the previous
/// observation, and the series after recording it. `0` is absence and neither
/// advances nor enters the series; the first real observation only records.
pub open spec fn spec_activity(current: u64, last: Option<u64>) -> (bool, Option<u64>) {
    if current == 0 {
        (false, last)
    } else {
        (last is Some && current > last.unwrap(), Some(current))
    }
}

/// The handover decision over levels. Health comes first because it bounds the
/// wait; an activity advance then outranks a matching prompt template, and may
/// only ever withhold a handover.
pub open spec fn gate_decision(
    healthy: bool,
    past_dwell: bool,
    activity_advanced: bool,
    ready: bool,
) -> TargetGate {
    if !healthy {
        if past_dwell {
            TargetGate::Unreachable
        } else {
            TargetGate::Hold
        }
    } else if activity_advanced {
        TargetGate::Hold
    } else if ready {
        TargetGate::Open
    } else {
        TargetGate::Hold
    }
}

/// Whether the target's activity marker advanced since the last handover decision,
/// recording the new value either way.
pub fn activity_advanced(current: u64, last: &mut Option<u64>) -> (advanced: bool)
    ensures
        (advanced, *final(last)) == spec_activity(current, *old(last)),
{
    if current == 0 {
        return false;
    }
    let advanced = match *last {
        Some(previous) => current > previous,
        None => false,
    };
    *last = Some(current);
    advanced
}

/// The handover decision once the elapsed unreachability is known: `elapsed_ms` is
/// how long the target has been continuously unreachable (ignored when healthy).
pub fn decide_gate_at(
    healthy: bool,
    elapsed_ms: u64,
    unreachable_dwell_ms: u64,
    activity_advanced: bool,
    ready: bool,
) -> (gate: TargetGate)
    ensures
        gate == gate_decision(healthy, elapsed_ms >= unreachable_dwell_ms, activity_advanced, ready),
{
    if !healthy {
        if elapsed_ms >= unreachable_dwell_ms {
            return TargetGate::Unreachable;
        }
        return TargetGate::Hold;
    }
    if activity_advanced {
        return TargetGate::Hold;
    }
    if ready {
        TargetGate::Open
    } else {
        TargetGate::Hold
    }
}

/// The handover decision for a transport's reported health. An unreachable
/// target's elapsed time is read from the clock, so for one the contract says
/// only that the decision is the one for some elapsed time.
pub fn decide_gate(
    health: TransportHealth,
    unreachable_dwell_ms: u64,
    activity_advanced: bool,
    ready: bool,
) -> (gate: TargetGate)
    ensures
        health is Healthy ==> gate == gate_decision(true, false, activity_advanced, ready),
        health is Unreachable ==> exists|past_dwell: bool|
            gate == #[trigger] gate_decision(false, past_dwell, activity_advanced, ready),
{
    match health {
        TransportHealth::Healthy => decide_gate_at(
            true,
            0,
            unreachable_dwell_ms,
            activity_advanced,
            ready,
        ),
        TransportHealth::Unreachable { since } => {
            let elapsed = elapsed_millis(&since);
            let gate = decide_gate_at(
                false,
                elapsed,
                unreachable_dwell_ms,
                activity_advanced,
                ready,
            );
            assert(gate == gate_decision(false, elapsed >= unreachable_dwell_ms, activity_advanced, ready));
            gate
        },
    }
}

/// Suppression only ever withholds: an activity advance never lets a handover through,
/// and never keeps a member from the outcome an unreachable-past-dwell target
/// owes it.
pub proof fn lemma_activity_only_withholds(healthy: bool, past_dwell: bool, ready: bool)
    ensures
        gate_decision(healthy, past_dwell, true, ready) != TargetGate::Open,
        gate_decision(false, true, true, ready) == TargetGate::Unreachable,
        gate_decision(healthy, past_dwell, false, ready) == TargetGate::Hold
            ==> gate_decision(healthy, past_dwell, true, ready) == TargetGate::Hold,
{
}

/// Absence carries no meaning: an unreadable marker never advances and never
/// enters the series, and a first observation never advances.
pub proof fn lemma_absence_is_not_evidence(current: u64, last: Option<u64>)
    ensures
        spec_activity(0, last) == (false, last),
        current != 0 ==> spec_activity(current, None) == (false, Some(current)),
        spec_activity(current, spec_activity(0, last).1) == spec_activity(current, last),
{
}

} // verus!
