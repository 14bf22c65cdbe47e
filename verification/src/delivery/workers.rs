//! The registry of async delivery workers, keyed by (namespace, runtime
//! directory, target session), with each worker's readiness and the failure it
//! recorded, if any.
//!
//! The workers themselves (their tasks, channels and transports) belong to the
//! host; the registry is what the relay decides with: whether a worker exists,
//! how ready it is, whether startup may go on waiting for it, and when a
//! shutdown wait is over.
use vstd::prelude::*;


use crate::seqs::{
    first_index, lemma_filter_step, lemma_first_index, lemma_first_index_is,
    lemma_first_index_update,
};
use crate::text::str_eq;

verus! {

/// How ready a worker-driven transport is.
#[derive(Clone, Copy, Debug, PartialEq, Eq, Structural)]
pub enum WorkerReadinessState {
    Initializing,
    Available,
    Busy,
    /// The worker observed a transport failure and is rebuilding its
    /// underlying process; clients that do not know the value treat it as not
    /// ready.
    Recovering,
    Unavailable,
}

pub open spec fn readiness_name(state: WorkerReadinessState) -> Seq<char> {
    match state {
        WorkerReadinessState::Initializing => "initializing"@,
        WorkerReadinessState::Available => "available"@,
        WorkerReadinessState::Busy => "busy"@,
        WorkerReadinessState::Recovering => "recovering"@,
        WorkerReadinessState::Unavailable => "unavailable"@,
    }
}

/// Ready is what `list` reports as ready: available or busy.
pub open spec fn readiness_is_ready(readiness: Option<WorkerReadinessState>) -> bool {
    readiness == Some(WorkerReadinessState::Available) || readiness == Some(
        WorkerReadinessState::Busy,
    )
}

impl WorkerReadinessState {
    /// The readiness state's wire name.
    pub fn as_str(self) -> (name: &'static str)
        ensures
            name@ == readiness_name(self),
    {
        match self {
            WorkerReadinessState::Initializing => "initializing",
            WorkerReadinessState::Available => "available",
            WorkerReadinessState::Busy => "busy",
            WorkerReadinessState::Recovering => "recovering",
            WorkerReadinessState::Unavailable => "unavailable",
        }
    }
}

/// Whether a worker reading counts as ready.
pub fn acp_readiness_is_ready(readiness: Option<WorkerReadinessState>) -> (ready: bool)
    ensures
        ready == readiness_is_ready(readiness),
{
    match readiness {
        Some(WorkerReadinessState::Available) => true,
        Some(WorkerReadinessState::Busy) => true,
        _ => false,
    }
}

/// The structured failure a worker recorded about itself.
pub struct WorkerFailureReason {
    pub code: String,
    pub reason: String,
}

/// One registered worker.
pub struct WorkerEntry {
    pub namespace: String,
    pub runtime_directory: String,
    pub target_session: String,
    pub readiness: Option<WorkerReadinessState>,
    pub failure: Option<WorkerFailureReason>,
}

pub struct WorkerView {
    pub namespace: Seq<char>,
    pub runtime_directory: Seq<char>,
    pub target_session: Seq<char>,
    pub readiness: Option<WorkerReadinessState>,
    pub failure: Option<(Seq<char>, Seq<char>)>,
}

impl View for WorkerEntry {
    type V = WorkerView;

    open spec fn view(&self) -> WorkerView {
        WorkerView {
            namespace: self.namespace@,
            runtime_directory: self.runtime_directory@,
            target_session: self.target_session@,
            readiness: self.readiness,
            failure: match self.failure {
                None => None,
                Some(f) => Some((f.code@, f.reason@)),
            },
        }
    }
}

/// Whether a worker is the one keyed by these three parts.
pub open spec fn keyed(
    namespace: Seq<char>,
    runtime_directory: Seq<char>,
    target_session: Seq<char>,
) -> spec_fn(WorkerView) -> bool {
    |w: WorkerView|
        w.namespace == namespace && w.runtime_directory == runtime_directory && w.target_session
            == target_session
}

/// Whether a worker lives outside `runtime_directory`.
pub open spec fn outside_directory(runtime_directory: Seq<char>) -> spec_fn(WorkerView) -> bool {
    |w: WorkerView| w.runtime_directory != runtime_directory
}

/// No two workers share a key.
pub open spec fn keys_distinct(workers: Seq<WorkerView>) -> bool {
    forall|a: int, b: int|
        0 <= a < workers.len() && 0 <= b < workers.len() && a != b ==> !keyed(
            workers[a].namespace,
            workers[a].runtime_directory,
            workers[a].target_session,
        )(workers[b])
}

/// The readiness registered for a key: `None` when no worker is registered
/// or none has reported yet.
pub open spec fn spec_readiness(
    workers: Seq<WorkerView>,
    namespace: Seq<char>,
    runtime_directory: Seq<char>,
    target_session: Seq<char>,
) -> Option<WorkerReadinessState> {
    let i = first_index(workers, keyed(namespace, runtime_directory, target_session));
    if i >= 0 {
        workers[i].readiness
    } else {
        None
    }
}

/// The failure a worker recorded for a key, if any.
pub open spec fn spec_failure(
    workers: Seq<WorkerView>,
    namespace: Seq<char>,
    runtime_directory: Seq<char>,
    target_session: Seq<char>,
) -> Option<(Seq<char>, Seq<char>)> {
    let i = first_index(workers, keyed(namespace, runtime_directory, target_session));
    if i >= 0 {
        workers[i].failure
    } else {
        None
    }
}

/// The registry of async delivery workers.
pub struct AsyncDeliveryRegistry {
    workers: Vec<WorkerEntry>,
}

/// What one poll of the delivery shutdown wait does.
#[derive(Clone, Copy, Debug, PartialEq, Eq, Structural)]
pub enum ShutdownWait {
    /// The wait is over; this many workers were still running.
    Finished(usize),
    /// Sleep this many milliseconds, then poll again.
    Sleep(u64),
}

/// Sampling interval of the delivery shutdown wait.
pub const SHUTDOWN_WAIT_POLL_INTERVAL_MS: u64 = 25;

impl AsyncDeliveryRegistry {
    #[verifier::type_invariant]
    closed spec fn distinct(&self) -> bool {
        keys_distinct(self.workers@.map_values(|w: WorkerEntry| w@))
    }

    /// The registered workers, in registration order.
    pub closed spec fn workers(&self) -> Seq<WorkerView> {
        self.workers@.map_values(|w: WorkerEntry| w@)
    }

    /// An empty registry.
    pub fn new() -> (registry: Self)
        ensures
            registry.workers() == Seq::<WorkerView>::empty(),
    {
        let registry = AsyncDeliveryRegistry { workers: Vec::new() };
        assert(registry.workers() =~= Seq::<WorkerView>::empty());
        registry
    }

    /// How many workers are registered (a count that fits a `usize`, since
    /// they are held in memory).
    pub fn worker_count(&self) -> (count: usize)
        ensures
            count == self.workers().len(),
            self.workers().len() <= usize::MAX,
    {
        self.workers.len()
    }

    fn position(&self, namespace: &str, runtime_directory: &str, target_session: &str) -> (found:
        Option<usize>)
        ensures
            match found {
                Some(i) => i as int == first_index(
                    self.workers(),
                    keyed(namespace@, runtime_directory@, target_session@),
                ) && i < self.workers@.len(),
                None => first_index(
                    self.workers(),
                    keyed(namespace@, runtime_directory@, target_session@),
                ) == -1,
            },
    {
        let ghost workers = self.workers();
        let ghost key = keyed(namespace@, runtime_directory@, target_session@);
        let mut i: usize = 0;
        while i < self.workers.len()
            invariant
                i <= self.workers@.len(),
                workers == self.workers@.map_values(|w: WorkerEntry| w@),
                key == keyed(namespace@, runtime_directory@, target_session@),
                forall|j: int| 0 <= j < i ==> !key(#[trigger] workers[j]),
            decreases self.workers@.len() - i,
        {
            let w: &WorkerEntry = &self.workers[i];
            if str_eq(w.namespace.as_str(), namespace) && str_eq(
                w.runtime_directory.as_str(),
                runtime_directory,
            ) && str_eq(w.target_session.as_str(), target_session) {
                proof {
                    assert(key(workers[i as int]));
                    lemma_first_index_is(workers, key, i as int);
                }
                return Some(i);
            }
            assert(!key(workers[i as int]));
            i = i + 1;
        }
        proof {
            lemma_first_index(workers, key);
        }
        None
    }

    /// Registers a worker for the key unless one is registered already;
    /// reports whether this call registered it. A new worker has reported no
    /// readiness and recorded no failure.
    pub fn register_worker_if_absent(
        &mut self,
        namespace: &str,
        runtime_directory: &str,
        target_session: &str,
    ) -> (registered: bool)
        ensures
            registered == (first_index(
                old(self).workers(),
                keyed(namespace@, runtime_directory@, target_session@),
            ) < 0),
            registered ==> final(self).workers() == old(self).workers().push(
                WorkerView {
                    namespace: namespace@,
                    runtime_directory: runtime_directory@,
                    target_session: target_session@,
                    readiness: None,
                    failure: None,
                },
            ),
            !registered ==> final(self).workers() == old(self).workers(),
    {
        proof {
            use_type_invariant(&*self);
        }
        if self.position(namespace, runtime_directory, target_session).is_some() {
            return false;
        }
        let mut workers: Vec<WorkerEntry> = Vec::new();
        std::mem::swap(&mut workers, &mut self.workers);
        let ghost before = workers@.map_values(|w: WorkerEntry| w@);
        proof {
            lemma_first_index(before, keyed(namespace@, runtime_directory@, target_session@));
        }
        workers.push(
            WorkerEntry {
                namespace: String::from_str(namespace),
                runtime_directory: String::from_str(runtime_directory),
                target_session: String::from_str(target_session),
                readiness: None,
                failure: None,
            },
        );
        proof {
            let after = workers@.map_values(|w: WorkerEntry| w@);
            assert(after =~= before.push(after[before.len() as int]));
            assert forall|a: int, b: int|
                0 <= a < after.len() && 0 <= b < after.len() && a != b implies !keyed(
                after[a].namespace,
                after[a].runtime_directory,
                after[a].target_session,
            )(after[b]) by {
                if a == before.len() {
                    assert(!keyed(namespace@, runtime_directory@, target_session@)(before[b]));
                } else if b == before.len() {
                    assert(after[a] == before[a]);
                    assert(!keyed(namespace@, runtime_directory@, target_session@)(before[a]));
                } else {
                    assert(after[a] == before[a]);
                    assert(after[b] == before[b]);
                }
            }
        }
        self.workers = workers;
        true
    }

    /// Replaces the registered worker at position `i` by `entry`, which has
    /// the same key.
    fn replace(&mut self, i: usize, entry: WorkerEntry)
        requires
            i < old(self).workers().len(),
            entry@.namespace == old(self).workers()[i as int].namespace,
            entry@.runtime_directory == old(self).workers()[i as int].runtime_directory,
            entry@.target_session == old(self).workers()[i as int].target_session,
        ensures
            final(self).workers() == old(self).workers().update(i as int, entry@),
    {
        proof {
            use_type_invariant(&*self);
        }
        let mut workers: Vec<WorkerEntry> = Vec::new();
        std::mem::swap(&mut workers, &mut self.workers);
        let ghost before = workers@.map_values(|w: WorkerEntry| w@);
        workers.set(i, entry);
        proof {
            let after = workers@.map_values(|w: WorkerEntry| w@);
            assert(after =~= before.update(i as int, entry@));
            assert forall|a: int, b: int|
                0 <= a < after.len() && 0 <= b < after.len() && a != b implies !keyed(
                after[a].namespace,
                after[a].runtime_directory,
                after[a].target_session,
            )(after[b]) by {
                assert(keyed(
                    before[a].namespace,
                    before[a].runtime_directory,
                    before[a].target_session,
                ) == keyed(after[a].namespace, after[a].runtime_directory, after[a].target_session));
            }
        }
        self.workers = workers;
    }

    /// Records a worker's readiness; reports whether a worker is registered
    /// for the key.
    pub fn set_worker_readiness(
        &mut self,
        namespace: &str,
        runtime_directory: &str,
        target_session: &str,
        state: WorkerReadinessState,
    ) -> (registered: bool)
        ensures
            registered == (first_index(
                old(self).workers(),
                keyed(namespace@, runtime_directory@, target_session@),
            ) >= 0),
            registered ==> final(self).workers() == old(self).workers().update(
                first_index(old(self).workers(), keyed(namespace@, runtime_directory@, target_session@)),
                WorkerView {
                    readiness: Some(state),
                    ..old(self).workers()[first_index(
                        old(self).workers(),
                        keyed(namespace@, runtime_directory@, target_session@),
                    )]
                },
            ),
            !registered ==> final(self).workers() == old(self).workers(),
    {
        match self.position(namespace, runtime_directory, target_session) {
            None => false,
            Some(i) => {
                let w: &WorkerEntry = &self.workers[i];
                let entry = WorkerEntry {
                    namespace: w.namespace.clone(),
                    runtime_directory: w.runtime_directory.clone(),
                    target_session: w.target_session.clone(),
                    readiness: Some(state),
                    failure: match &w.failure {
                        None => None,
                        Some(f) => Some(
                            WorkerFailureReason { code: f.code.clone(), reason: f.reason.clone() },
                        ),
                    },
                };
                self.replace(i, entry);
                true
            },
        }
    }

    /// Records the failure a worker observed about itself; reports whether a
    /// worker is registered for the key.
    pub fn record_worker_failure(
        &mut self,
        namespace: &str,
        runtime_directory: &str,
        target_session: &str,
        failure: WorkerFailureReason,
    ) -> (registered: bool)
        ensures
            registered == (first_index(
                old(self).workers(),
                keyed(namespace@, runtime_directory@, target_session@),
            ) >= 0),
            registered ==> final(self).workers() == old(self).workers().update(
                first_index(old(self).workers(), keyed(namespace@, runtime_directory@, target_session@)),
                WorkerView {
                    failure: Some((failure.code@, failure.reason@)),
                    ..old(self).workers()[first_index(
                        old(self).workers(),
                        keyed(namespace@, runtime_directory@, target_session@),
                    )]
                },
            ),
            !registered ==> final(self).workers() == old(self).workers(),
    {
        match self.position(namespace, runtime_directory, target_session) {
            None => false,
            Some(i) => {
                let w: &WorkerEntry = &self.workers[i];
                let entry = WorkerEntry {
                    namespace: w.namespace.clone(),
                    runtime_directory: w.runtime_directory.clone(),
                    target_session: w.target_session.clone(),
                    readiness: w.readiness,
                    failure: Some(failure),
                };
                self.replace(i, entry);
                true
            },
        }
    }

    /// Deregisters the worker for the key; reports whether one was registered.
    pub fn unregister_worker(
        &mut self,
        namespace: &str,
        runtime_directory: &str,
        target_session: &str,
    ) -> (registered: bool)
        ensures
            registered == (first_index(
                old(self).workers(),
                keyed(namespace@, runtime_directory@, target_session@),
            ) >= 0),
            registered ==> final(self).workers() == old(self).workers().remove(
                first_index(old(self).workers(), keyed(namespace@, runtime_directory@, target_session@)),
            ),
            !registered ==> final(self).workers() == old(self).workers(),
    {
        proof {
            use_type_invariant(&*self);
        }
        match self.position(namespace, runtime_directory, target_session) {
            None => false,
            Some(i) => {
                let mut workers: Vec<WorkerEntry> = Vec::new();
                std::mem::swap(&mut workers, &mut self.workers);
                let ghost before = workers@.map_values(|w: WorkerEntry| w@);
                workers.remove(i);
                proof {
                    let after = workers@.map_values(|w: WorkerEntry| w@);
                    assert(after =~= before.remove(i as int));
                    assert forall|a: int, b: int|
                        0 <= a < after.len() && 0 <= b < after.len() && a != b implies !keyed(
                        after[a].namespace,
                        after[a].runtime_directory,
                        after[a].target_session,
                    )(after[b]) by {
                        let a0 = if a < i { a } else { a + 1 };
                        let b0 = if b < i { b } else { b + 1 };
                        assert(after[a] == before[a0]);
                        assert(after[b] == before[b0]);
                    }
                }
                self.workers = workers;
                true
            },
        }
    }

    /// The readiness a worker reported for the key, if one is registered and
    /// has reported.
    pub fn get_worker_readiness(
        &self,
        namespace: &str,
        runtime_directory: &str,
        target_session: &str,
    ) -> (readiness: Option<WorkerReadinessState>)
        ensures
            readiness == spec_readiness(
                self.workers(),
                namespace@,
                runtime_directory@,
                target_session@,
            ),
    {
        match self.position(namespace, runtime_directory, target_session) {
            None => None,
            Some(i) => self.workers[i].readiness,
        }
    }

    /// The failure the worker for the key recorded, if any.
    pub fn get_worker_failure(
        &self,
        namespace: &str,
        runtime_directory: &str,
        target_session: &str,
    ) -> (failure: Option<WorkerFailureReason>)
        ensures
            match failure {
                None => spec_failure(
                    self.workers(),
                    namespace@,
                    runtime_directory@,
                    target_session@,
                ) is None,
                Some(f) => spec_failure(
                    self.workers(),
                    namespace@,
                    runtime_directory@,
                    target_session@,
                ) == Some((f.code@, f.reason@)),
            },
    {
        match self.position(namespace, runtime_directory, target_session) {
            None => None,
            Some(i) => match &self.workers[i].failure {
                None => None,
                Some(f) => Some(WorkerFailureReason { code: f.code.clone(), reason: f.reason.clone() }),
            },
        }
    }
}

/// The readiness of the worker registered for (namespace, runtime directory,
/// target session), by name: `None` when no worker is registered or it has not
/// reported yet.
pub fn read_worker_readiness(
    registry: &AsyncDeliveryRegistry,
    namespace: &str,
    runtime_directory: &str,
    target_session: &str,
) -> (name: Option<&'static str>)
    ensures
        match spec_readiness(registry.workers(), namespace@, runtime_directory@, target_session@) {
            None => name is None,
            Some(state) => name is Some && name.unwrap()@ == readiness_name(state),
        },
{
    match registry.get_worker_readiness(namespace, runtime_directory, target_session) {
        None => None,
        Some(state) => Some(state.as_str()),
    }
}

/// Removes every worker registered under `root` as its runtime directory,
/// keeping the others in order.
pub fn test_cleanup_acp_workers(registry: &mut AsyncDeliveryRegistry, root: &str)
    ensures
        final(registry).workers() == old(registry).workers().filter(outside_directory(root@)),
{
    proof {
        use_type_invariant(&*registry);
    }
    let mut workers: Vec<WorkerEntry> = Vec::new();
    std::mem::swap(&mut workers, &mut registry.workers);
    let ghost before = workers@.map_values(|w: WorkerEntry| w@);
    let ghost keep = outside_directory(root@);
    let mut kept: Vec<WorkerEntry> = Vec::new();
    let total = workers.len();
    let mut i: usize = 0;
    while workers.len() > 0
        invariant
            workers@.len() + i == total,
            before.len() == total,
            keys_distinct(before),
            keep == outside_directory(root@),
            forall|j: int| 0 <= j < workers@.len() ==> #[trigger] workers@[j]@ == before[i + j],
            kept@.map_values(|w: WorkerEntry| w@) == before.subrange(0, i as int).filter(keep),
        decreases workers@.len(),
    {
        let entry = workers.remove(0);
        assert(entry@ == before[i as int]);
        proof {
            lemma_filter_step(before, keep, i as int);
        }
        let ghost kept_before = kept@.map_values(|w: WorkerEntry| w@);
        if !str_eq(entry.runtime_directory.as_str(), root) {
            kept.push(entry);
            assert(kept@.map_values(|w: WorkerEntry| w@) =~= kept_before.push(before[i as int]));
        }
        assert forall|j: int| 0 <= j < workers@.len() implies #[trigger] workers@[j]@ == before[i
            + 1 + j] by {}
        i = i + 1;
    }
    proof {
        assert(before.subrange(0, total as int) =~= before);
        let after = kept@.map_values(|w: WorkerEntry| w@);
        lemma_filter_keeps_keys_distinct(before, keep);
    }
    registry.workers = kept;
}

/// Filtering a registry keeps its keys distinct.
proof fn lemma_filter_keeps_keys_distinct(workers: Seq<WorkerView>, keep: spec_fn(WorkerView) -> bool)
    requires
        keys_distinct(workers),
    ensures
        keys_distinct(workers.filter(keep)),
    decreases workers.len(),
{
    reveal(Seq::filter);
    if workers.len() > 0 {
        let rest = workers.drop_last();
        assert(keys_distinct(rest)) by {
            assert forall|a: int, b: int|
                0 <= a < rest.len() && 0 <= b < rest.len() && a != b implies !keyed(
                rest[a].namespace,
                rest[a].runtime_directory,
                rest[a].target_session,
            )(rest[b]) by {
                assert(rest[a] == workers[a] && rest[b] == workers[b]);
            }
        }
        lemma_filter_keeps_keys_distinct(rest, keep);
        if keep(workers.last()) {
            let f = rest.filter(keep);
            let g = f.push(workers.last());
            assert forall|a: int, b: int|
                0 <= a < g.len() && 0 <= b < g.len() && a != b implies !keyed(
                g[a].namespace,
                g[a].runtime_directory,
                g[a].target_session,
            )(g[b]) by {
                if a == f.len() || b == f.len() {
                    let other = if a == f.len() { b } else { a };
                    lemma_filter_member(rest, keep, other);
                    let k = choose|k: int| 0 <= k < rest.len() && rest[k] == f[other];
                    assert(rest[k] == workers[k]);
                    assert(workers.len() - 1 != k);
                }
            }
        }
    }
}

/// Every element of a filtered sequence is an element of the sequence.
proof fn lemma_filter_member<A>(s: Seq<A>, keep: spec_fn(A) -> bool, i: int)
    requires
        0 <= i < s.filter(keep).len(),
    ensures
        exists|k: int| 0 <= k < s.len() && s[k] == s.filter(keep)[i],
    decreases s.len(),
{
    reveal(Seq::filter);
    if s.len() > 0 {
        let rest = s.drop_last();
        if keep(s.last()) && i == rest.filter(keep).len() {
            assert(s[s.len() - 1] == s.filter(keep)[i]);
        } else {
            lemma_filter_member(rest, keep, i);
            let k = choose|k: int| 0 <= k < rest.len() && rest[k] == rest.filter(keep)[i];
            assert(s[k] == rest[k]);
        }
    }
}

/// One poll of the shutdown wait at `now_ms`, for a wait ending at
/// `deadline_ms`: it ends when no worker is left or the deadline has passed,
/// reporting how many are still running, and otherwise sleeps no further than
/// the deadline.
pub fn wait_for_async_delivery_shutdown(
    registry: &AsyncDeliveryRegistry,
    now_ms: u64,
    deadline_ms: u64,
) -> (step: ShutdownWait)
    ensures
        registry.workers().len() == 0 ==> step == ShutdownWait::Finished(0),
        registry.workers().len() > 0 && now_ms >= deadline_ms ==> (step matches ShutdownWait::Finished(
            running,
        ) && running == registry.workers().len()),
        step matches ShutdownWait::Finished(running) ==> running == registry.workers().len(),
        registry.workers().len() > 0 && now_ms < deadline_ms ==> step == ShutdownWait::Sleep(
            if deadline_ms - now_ms < SHUTDOWN_WAIT_POLL_INTERVAL_MS {
                (deadline_ms - now_ms) as u64
            } else {
                SHUTDOWN_WAIT_POLL_INTERVAL_MS
            },
        ),
{
    let running = registry.worker_count();
    if running == 0 {
        return ShutdownWait::Finished(0);
    }
    if now_ms >= deadline_ms {
        return ShutdownWait::Finished(running);
    }
    let remaining = deadline_ms - now_ms;
    if remaining < SHUTDOWN_WAIT_POLL_INTERVAL_MS {
        ShutdownWait::Sleep(remaining)
    } else {
        ShutdownWait::Sleep(SHUTDOWN_WAIT_POLL_INTERVAL_MS)
    }
}

/// What a readiness reading reads back after a write: once a registered
/// worker's readiness is set, reading it gives back the state written.
pub proof fn lemma_readiness_reads_back(
    workers: Seq<WorkerView>,
    namespace: Seq<char>,
    runtime_directory: Seq<char>,
    target_session: Seq<char>,
    state: WorkerReadinessState,
)
    requires
        first_index(workers, keyed(namespace, runtime_directory, target_session)) >= 0,
    ensures
        ({
            let i = first_index(workers, keyed(namespace, runtime_directory, target_session));
            let after = workers.update(i, WorkerView { readiness: Some(state), ..workers[i] });
            spec_readiness(after, namespace, runtime_directory, target_session) == Some(state)
        }),
{
    let key = keyed(namespace, runtime_directory, target_session);
    lemma_first_index(workers, key);
    let i = first_index(workers, key);
    lemma_first_index_update(workers, key, WorkerView { readiness: Some(state), ..workers[i] });
}

/// Whether a worker belongs to the bundle `namespace` running in
/// `runtime_directory`.
pub open spec fn of_bundle(namespace: Seq<char>, runtime_directory: Seq<char>) -> spec_fn(
    WorkerView,
) -> bool {
    |w: WorkerView| w.namespace == namespace && w.runtime_directory == runtime_directory
}

/// The target sessions of the workers a bundle runtime owns, in registration
/// order: the workers its teardown stops.
pub fn bundle_worker_targets(
    registry: &AsyncDeliveryRegistry,
    namespace: &str,
    runtime_directory: &str,
) -> (targets: Vec<String>)
    ensures
        targets@.map_values(|s: String| s@) == registry.workers().filter(
            of_bundle(namespace@, runtime_directory@),
        ).map_values(|w: WorkerView| w.target_session),
{
    let ghost workers = registry.workers();
    let ghost keep = of_bundle(namespace@, runtime_directory@);
    let mut targets: Vec<String> = Vec::new();
    let mut i: usize = 0;
    while i < registry.workers.len()
        invariant
            i <= registry.workers@.len(),
            workers == registry.workers@.map_values(|w: WorkerEntry| w@),
            keep == of_bundle(namespace@, runtime_directory@),
            targets@.map_values(|s: String| s@) == workers.subrange(0, i as int).filter(keep).map_values(
                |w: WorkerView| w.target_session,
            ),
        decreases registry.workers@.len() - i,
    {
        let w: &WorkerEntry = &registry.workers[i];
        proof {
            lemma_filter_step(workers, keep, i as int);
        }
        assert(workers[i as int] == w@);
        let ghost before = targets@.map_values(|s: String| s@);
        let ghost kept = workers.subrange(0, i as int).filter(keep);
        if str_eq(w.namespace.as_str(), namespace) && str_eq(
            w.runtime_directory.as_str(),
            runtime_directory,
        ) {
            targets.push(w.target_session.clone());
            assert(targets@.map_values(|s: String| s@) =~= before.push(w.target_session@));
            assert(kept.push(w@).map_values(|w: WorkerView| w.target_session) =~= kept.map_values(
                |w: WorkerView| w.target_session,
            ).push(w.target_session@));
        }
        i = i + 1;
    }
    assert(workers.subrange(0, workers.len() as int) =~= workers);
    targets
}

} // verus!
