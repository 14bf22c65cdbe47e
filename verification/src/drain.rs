//! Cooperative connection-worker shutdown.
//!
//! The host signals every connection worker when shutdown begins, then waits a
//! bounded window for them to drain. The counters the host and its workers
//! share, and the decisions of the bounded wait, are here; the host keeps them
//! behind a lock and does the sleeping.
use vstd::prelude::*;

verus! {

/// Sampling interval of the bounded drain wait.
pub const DRAIN_WAIT_POLL_INTERVAL_MS: u64 = 25;

/// The outcome of a bounded drain wait.
#[derive(Clone, Copy, Debug, PartialEq, Eq, Structural)]
pub struct ConnectionDrainReport {
    /// Workers that exited after the shutdown signal fired.
    pub drained_worker_count: usize,
    /// Workers still registered when the wait ended.
    pub remaining_worker_count: usize,
    /// Remaining workers that were mid-request when the wait ended.
    pub remaining_serving_count: usize,
    /// True when the wait ended at the timeout rather than on full drain.
    pub timed_out: bool,
}

/// The counters shared between the host and its connection workers.
#[derive(Debug)]
pub struct DrainCounters {
    signaled: bool,
    active: usize,
    serving: usize,
    drained: usize,
}

/// What one sample of the bounded drain wait does.
#[derive(Clone, Copy, Debug, PartialEq, Eq, Structural)]
pub enum DrainWaitStep {
    /// The wait is over with this report.
    Report(ConnectionDrainReport),
    /// Sleep this many milliseconds, then sample again.
    Sleep(u64),
}

impl DrainCounters {
    pub closed spec fn signaled(&self) -> bool {
        self.signaled
    }

    pub closed spec fn active(&self) -> nat {
        self.active as nat
    }

    pub closed spec fn serving(&self) -> nat {
        self.serving as nat
    }

    pub closed spec fn drained(&self) -> nat {
        self.drained as nat
    }

    /// The counts are held as `usize`, so each fits one.
    pub proof fn lemma_counts_fit(&self)
        ensures
            self.active() <= usize::MAX,
            self.serving() <= usize::MAX,
            self.drained() <= usize::MAX,
    {
    }

    /// No worker registered, none serving, none drained, no signal fired.
    pub fn new() -> (counters: Self)
        ensures
            !counters.signaled(),
            counters.active() == 0,
            counters.serving() == 0,
            counters.drained() == 0,
    {
        DrainCounters { signaled: false, active: 0, serving: 0, drained: 0 }
    }

    /// Registers one connection worker.
    pub fn register_worker(&mut self)
        requires
            old(self).active() < usize::MAX,
        ensures
            final(self).active() == old(self).active() + 1,
            final(self).serving() == old(self).serving(),
            final(self).drained() == old(self).drained(),
            final(self).signaled() == old(self).signaled(),
    {
        self.active = self.active + 1;
    }

    /// Fires the shutdown signal every worker observes. Idempotent.
    pub fn signal_shutdown(&mut self)
        ensures
            final(self).signaled(),
            final(self).active() == old(self).active(),
            final(self).serving() == old(self).serving(),
            final(self).drained() == old(self).drained(),
    {
        self.signaled = true;
    }

    /// True once the shutdown signal has fired.
    pub fn shutdown_signaled(&self) -> (signaled: bool)
        ensures
            signaled == self.signaled(),
    {
        self.signaled
    }

    /// Marks one worker as mid-request.
    pub fn begin_serving(&mut self)
        requires
            old(self).serving() < usize::MAX,
        ensures
            final(self).serving() == old(self).serving() + 1,
            final(self).active() == old(self).active(),
            final(self).drained() == old(self).drained(),
            final(self).signaled() == old(self).signaled(),
    {
        self.serving = self.serving + 1;
    }

    /// Marks one mid-request worker as done with its request.
    pub fn end_serving(&mut self)
        requires
            old(self).serving() > 0,
        ensures
            final(self).serving() == old(self).serving() - 1,
            final(self).active() == old(self).active(),
            final(self).drained() == old(self).drained(),
            final(self).signaled() == old(self).signaled(),
    {
        self.serving = self.serving - 1;
    }

    /// Deregisters one worker; an exit after the shutdown signal counts as
    /// drained.
    pub fn release_worker(&mut self)
        requires
            old(self).active() > 0,
            old(self).signaled() ==> old(self).drained() < usize::MAX,
        ensures
            final(self).active() == old(self).active() - 1,
            final(self).drained() == old(self).drained() + (if old(self).signaled() {
                1int
            } else {
                0int
            }),
            final(self).serving() == old(self).serving(),
            final(self).signaled() == old(self).signaled(),
    {
        self.active = self.active - 1;
        if self.signaled {
            self.drained = self.drained + 1;
        }
    }

    /// The counters as a drain report.
    pub fn drain_report(&self, timed_out: bool) -> (report: ConnectionDrainReport)
        ensures
            report.drained_worker_count == self.drained(),
            report.remaining_worker_count == self.active(),
            report.remaining_serving_count == self.serving(),
            report.timed_out == timed_out,
    {
        ConnectionDrainReport {
            drained_worker_count: self.drained,
            remaining_worker_count: self.active,
            remaining_serving_count: self.serving,
            timed_out,
        }
    }
}

/// One sample of the bounded drain wait at `now_ms`, for a wait ending at
/// `deadline_ms`: a full drain ends it untimed, the deadline ends it timed
/// out, and otherwise it sleeps no further than the deadline.
pub fn drain_wait_step(counters: &DrainCounters, now_ms: u64, deadline_ms: u64) -> (step:
    DrainWaitStep)
    ensures
        counters.active() == 0 ==> (step matches DrainWaitStep::Report(report)
            && report.drained_worker_count == counters.drained()
            && report.remaining_worker_count == 0
            && report.remaining_serving_count == counters.serving() && !report.timed_out),
        counters.active() > 0 && now_ms >= deadline_ms ==> (step matches DrainWaitStep::Report(
            report,
        ) && report.drained_worker_count == counters.drained()
            && report.remaining_worker_count == counters.active()
            && report.remaining_serving_count == counters.serving() && report.timed_out),
        step matches DrainWaitStep::Report(report) ==> (report.timed_out
            <==> report.remaining_worker_count > 0),
        counters.active() > 0 && now_ms < deadline_ms ==> step == DrainWaitStep::Sleep(
            if deadline_ms - now_ms < DRAIN_WAIT_POLL_INTERVAL_MS {
                (deadline_ms - now_ms) as u64
            } else {
                DRAIN_WAIT_POLL_INTERVAL_MS
            },
        ),
{
    if counters.active == 0 {
        return DrainWaitStep::Report(counters.drain_report(false));
    }
    if now_ms >= deadline_ms {
        return DrainWaitStep::Report(counters.drain_report(true));
    }
    let remaining = deadline_ms - now_ms;
    if remaining < DRAIN_WAIT_POLL_INTERVAL_MS {
        DrainWaitStep::Sleep(remaining)
    } else {
        DrainWaitStep::Sleep(DRAIN_WAIT_POLL_INTERVAL_MS)
    }
}

} // verus!
