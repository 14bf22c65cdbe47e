//! The generation fence: the protocol that establishes whether a transport
//! generation has stopped executing.
//!
//! It answers one question only, *has execution ceased?*, in five steps:
//! a cooperative stop request, a first bounded observation window, forced
//! termination, a second bounded observation window, and the verdict. The
//! signals themselves, the waiting and the observing are the host's; the
//! decisions between them are here: what a closed window leads to, and what
//! one poll inside a window does.
use vstd::prelude::*;

verus! {

/// How often cessation is re-observed inside an observation window. The
/// window's duration is the contract; this is only its granularity.
pub const OBSERVATION_POLL_INTERVAL_MS: u64 = 10;

/// The result of fence acknowledgment. There is no third outcome: timeout and
/// failure both route to `Negative`.
#[derive(Clone, Copy, Debug, PartialEq, Eq, Structural)]
pub enum FenceVerdict {
    /// Every generation-owned executor was observed to cease.
    Positive,
    /// Cessation was not observed within the budget; the target admits no
    /// replacement and keeps its raw barrier held.
    Negative,
}

/// Which step produced the verdict.
#[derive(Clone, Copy, Debug, PartialEq, Eq, Structural)]
pub enum FenceResolution {
    /// Ceased in the first window; termination was never invoked.
    Cooperative,
    /// Ceased in the second window, after forced termination.
    Forced,
    /// Never observed to cease.
    Unobserved,
}

/// The outcome of one fence acknowledgment.
#[derive(Clone, Copy, Debug, PartialEq, Eq, Structural)]
pub struct FenceOutcome {
    pub verdict: FenceVerdict,
    pub resolution: FenceResolution,
}

/// The observation window a fence has just closed.
#[derive(Clone, Copy, Debug, PartialEq, Eq, Structural)]
pub enum FenceWindow {
    /// The window after the cooperative stop request.
    AfterStopRequest,
    /// The window after forced termination.
    AfterTermination,
}

/// What a fence does once a window has closed.
#[derive(Clone, Copy, Debug, PartialEq, Eq, Structural)]
pub enum FenceStep {
    /// Invoke forced termination, then observe a second window.
    Terminate,
    /// The fence is over with this outcome.
    Conclude(FenceOutcome),
}

/// What one poll inside an observation window does.
#[derive(Clone, Copy, Debug, PartialEq, Eq, Structural)]
pub enum ObservationStep {
    /// Cessation was observed.
    Ceased,
    /// The window's deadline has passed without cessation.
    Expired,
    /// Sleep this many milliseconds, then poll again.
    Sleep(u64),
}

pub open spec fn positive(resolution: FenceResolution) -> FenceOutcome {
    FenceOutcome { verdict: FenceVerdict::Positive, resolution }
}

pub open spec fn unobserved() -> FenceOutcome {
    FenceOutcome { verdict: FenceVerdict::Negative, resolution: FenceResolution::Unobserved }
}

/// The step after `window` closes, given whether cessation was observed in it.
pub open spec fn spec_fence_step(window: FenceWindow, ceased: bool) -> FenceStep {
    match window {
        FenceWindow::AfterStopRequest => if ceased {
            FenceStep::Conclude(positive(FenceResolution::Cooperative))
        } else {
            FenceStep::Terminate
        },
        FenceWindow::AfterTermination => if ceased {
            FenceStep::Conclude(positive(FenceResolution::Forced))
        } else {
            FenceStep::Conclude(unobserved())
        },
    }
}

/// The outcome of a whole fence, given what each window observed; the second
/// window is observed only when the first saw nothing.
pub open spec fn spec_fence_outcome(first_ceased: bool, second_ceased: bool) -> FenceOutcome {
    match spec_fence_step(FenceWindow::AfterStopRequest, first_ceased) {
        FenceStep::Conclude(outcome) => outcome,
        FenceStep::Terminate => match spec_fence_step(
            FenceWindow::AfterTermination,
            second_ceased,
        ) {
            FenceStep::Conclude(outcome) => outcome,
            FenceStep::Terminate => unobserved(),
        },
    }
}

/// Decides what follows a closed observation window.
pub fn fence_step(window: FenceWindow, ceased: bool) -> (step: FenceStep)
    ensures
        step == spec_fence_step(window, ceased),
{
    match window {
        FenceWindow::AfterStopRequest => {
            if ceased {
                FenceStep::Conclude(
                    FenceOutcome {
                        verdict: FenceVerdict::Positive,
                        resolution: FenceResolution::Cooperative,
                    },
                )
            } else {
                FenceStep::Terminate
            }
        },
        FenceWindow::AfterTermination => {
            if ceased {
                FenceStep::Conclude(
                    FenceOutcome {
                        verdict: FenceVerdict::Positive,
                        resolution: FenceResolution::Forced,
                    },
                )
            } else {
                FenceStep::Conclude(
                    FenceOutcome {
                        verdict: FenceVerdict::Negative,
                        resolution: FenceResolution::Unobserved,
                    },
                )
            }
        },
    }
}

/// The deadline of a window of `budget_ms` opened at `start_ms`, saturating at
/// the clock's range.
pub fn observation_deadline(start_ms: u64, budget_ms: u64) -> (deadline: u64)
    ensures
        deadline == (if start_ms + budget_ms > u64::MAX {
            u64::MAX as int
        } else {
            start_ms + budget_ms
        }),
{
    start_ms.saturating_add(budget_ms)
}

/// The sleep before the next poll: one poll interval, or what is left of the
/// window when that is shorter.
pub open spec fn poll_sleep(now_ms: u64, deadline_ms: u64) -> u64 {
    if deadline_ms - now_ms < OBSERVATION_POLL_INTERVAL_MS {
        (deadline_ms - now_ms) as u64
    } else {
        OBSERVATION_POLL_INTERVAL_MS
    }
}

/// One poll of a window ending at `deadline_ms`, at `now_ms`. Cessation is
/// checked before the deadline, so a generation that has already ceased costs
/// no wall time; a sleep never reaches past the deadline.
pub fn observation_step(ceased: bool, now_ms: u64, deadline_ms: u64) -> (step: ObservationStep)
    ensures
        ceased ==> step == ObservationStep::Ceased,
        !ceased && now_ms >= deadline_ms ==> step == ObservationStep::Expired,
        !ceased && now_ms < deadline_ms ==> step == ObservationStep::Sleep(
            poll_sleep(now_ms, deadline_ms),
        ),
{
    if ceased {
        return ObservationStep::Ceased;
    }
    if now_ms >= deadline_ms {
        return ObservationStep::Expired;
    }
    let remaining = deadline_ms - now_ms;
    if remaining < OBSERVATION_POLL_INTERVAL_MS {
        ObservationStep::Sleep(remaining)
    } else {
        ObservationStep::Sleep(OBSERVATION_POLL_INTERVAL_MS)
    }
}

/// A fence's verdict and resolution agree: it is positive exactly when
/// cessation was observed; it is cooperative exactly when the first window saw
/// it, in which case termination was never asked for; it is forced exactly
/// when only the second window saw it.
pub proof fn lemma_fence_outcome_agrees(first_ceased: bool, second_ceased: bool)
    ensures
        (spec_fence_outcome(first_ceased, second_ceased).verdict == FenceVerdict::Positive)
            <==> (first_ceased || second_ceased),
        (spec_fence_outcome(first_ceased, second_ceased).verdict == FenceVerdict::Positive)
            <==> (spec_fence_outcome(first_ceased, second_ceased).resolution
            != FenceResolution::Unobserved),
        (spec_fence_outcome(first_ceased, second_ceased).resolution
            == FenceResolution::Cooperative) <==> first_ceased,
        (spec_fence_outcome(first_ceased, second_ceased).resolution == FenceResolution::Forced)
            <==> (!first_ceased && second_ceased),
        first_ceased ==> spec_fence_step(FenceWindow::AfterStopRequest, first_ceased)
            != FenceStep::Terminate,
{
}

/// A poll inside a window never sleeps past the deadline, and always makes
/// progress: a sleep is at least one millisecond and at most one poll interval.
pub proof fn lemma_observation_stays_in_window(now_ms: u64, deadline_ms: u64)
    requires
        now_ms < deadline_ms,
    ensures
        1 <= poll_sleep(now_ms, deadline_ms) <= OBSERVATION_POLL_INTERVAL_MS,
        now_ms + poll_sleep(now_ms, deadline_ms) <= deadline_ms,
{
}

} // verus!
