//! What `list`, `up` and `down` report about a bundle.
//!
//! A bundle is up when at least one configured session is ready, healthy when
//! all are, degraded when some are; `up` reports a bundle that started with
//! failures as degraded when something is ready and failed when nothing is;
//! `down` reports a teardown that ended anything as unhosted. Readiness is read
//! from the transports by the host; the folding is here.
use vstd::prelude::*;

use crate::configuration::{BundleConfiguration, BundleMember, SessionType};
use crate::errors::{details_view, Detail, DetailView};
use crate::identity::{canonical_session_id, spec_canonical};
use crate::ordering::{lemma_map_values_multiset, names, sort_by_name, text_order, Named};
use crate::registry::{in_namespace, listed_entry, namespace_sessions, EntryView, UnifiedRegistry};
use crate::startup_state::{FailureView, StartupFailureRecord};

verus! {

#[derive(Clone, Copy, Debug, PartialEq, Eq, Structural)]
pub enum ListedBundleState {
    Up,
    Down,
}

#[derive(Clone, Copy, Debug, PartialEq, Eq, Structural)]
pub enum ListedBundleStartupHealth {
    Healthy,
    Degraded,
}

/// One listed session.
#[derive(Debug)]
pub struct ListedSession {
    pub id: String,
    pub transport: SessionType,
    pub ready: bool,
}

/// A bundle as `list` reports it.
pub struct ListedBundle {
    pub id: String,
    pub hosted: bool,
    pub state: ListedBundleState,
    pub startup_health: Option<ListedBundleStartupHealth>,
    pub state_reason_code: Option<String>,
    pub state_reason: Option<String>,
    pub startup_failure_count: usize,
    pub recent_startup_failures: Vec<StartupFailureRecord>,
    pub principals: Vec<ListedSession>,
}

/// What an `up` or `down` did to one bundle.
#[derive(Debug)]
pub struct BundleTransitionEntry {
    pub bundle_name: String,
    pub outcome: String,
    pub reason_code: Option<String>,
    pub reason: Option<String>,
    pub details: Option<Vec<Detail>>,
}

/// The answer to `up` or `down`.
pub struct BundleTransition {
    pub action: String,
    pub bundles: Vec<BundleTransitionEntry>,
    pub changed_bundle_count: usize,
    pub degraded_bundle_count: usize,
    pub skipped_bundle_count: usize,
    pub failed_bundle_count: usize,
    pub changed_any: bool,
}

pub open spec fn opt_text(value: Option<String>) -> Option<Seq<char>> {
    match value {
        None => None,
        Some(v) => Some(v@),
    }
}

/// A bundle's listed state from its configured and ready session counts.
pub open spec fn spec_list_bundle_state(configured: nat, ready: nat) -> (
    ListedBundleState,
    Option<ListedBundleStartupHealth>,
    Option<Seq<char>>,
    Option<Seq<char>>,
) {
    if configured == 0 {
        (
            ListedBundleState::Down,
            None,
            Some("runtime_no_configured_sessions"@),
            Some("bundle has zero configured sessions"@),
        )
    } else if ready == 0 {
        (
            ListedBundleState::Down,
            None,
            Some("runtime_startup_failed"@),
            Some("zero configured sessions are currently ready"@),
        )
    } else {
        (
            ListedBundleState::Up,
            Some(
                if ready == configured {
                    ListedBundleStartupHealth::Healthy
                } else {
                    ListedBundleStartupHealth::Degraded
                },
            ),
            None,
            None,
        )
    }
}

/// A bundle's listed state: down with a reason when nothing is configured or
/// nothing is ready; otherwise up, healthy when every session is ready and
/// degraded when only some are.
pub fn list_bundle_state(configured_session_count: usize, ready_session_count: usize) -> (state: (
    ListedBundleState,
    Option<ListedBundleStartupHealth>,
    Option<String>,
    Option<String>,
))
    ensures
        (state.0, state.1, opt_text(state.2), opt_text(state.3)) == spec_list_bundle_state(
            configured_session_count as nat,
            ready_session_count as nat,
        ),
{
    if configured_session_count == 0 {
        (
            ListedBundleState::Down,
            None,
            Some(String::from_str("runtime_no_configured_sessions")),
            Some(String::from_str("bundle has zero configured sessions")),
        )
    } else if ready_session_count == 0 {
        (
            ListedBundleState::Down,
            None,
            Some(String::from_str("runtime_startup_failed")),
            Some(String::from_str("zero configured sessions are currently ready")),
        )
    } else {
        let health = if ready_session_count == configured_session_count {
            ListedBundleStartupHealth::Healthy
        } else {
            ListedBundleStartupHealth::Degraded
        };
        (ListedBundleState::Up, Some(health), None, None)
    }
}

/// Whether a member counts as ready in a listing, given what was observed of
/// it: a tmux member when its active pane resolves, an ACP member when its
/// worker is ready, a pty member always; UI and pubsub members never.
pub fn session_ready_for_list(member: &BundleMember, pane_resolves: bool, acp_ready: bool) -> (ready:
    bool)
    ensures
        ready == match member.target {
            SessionType::Tmux => pane_resolves,
            SessionType::Acp => acp_ready,
            SessionType::Pty => true,
            SessionType::Ui | SessionType::Pubsub => false,
        },
{
    match member.target {
        SessionType::Tmux => pane_resolves,
        SessionType::Acp => acp_ready,
        SessionType::Pty => true,
        SessionType::Ui | SessionType::Pubsub => false,
    }
}

/// How many of `ready` are set.
pub open spec fn count_ready(ready: Seq<bool>) -> nat
    decreases ready.len(),
{
    if ready.len() == 0 {
        0
    } else {
        count_ready(ready.drop_last()) + if ready.last() {
            1nat
        } else {
            0nat
        }
    }
}

/// The listing of `bundle` given each member's observed readiness, in
/// configuration order, and its startup-failure history.
pub fn build_listed_bundle(
    bundle: &BundleConfiguration,
    ready: &Vec<bool>,
    recent_startup_failures: Vec<StartupFailureRecord>,
) -> (listed: ListedBundle)
    requires
        ready@.len() == bundle.members@.len(),
    ensures
        listed.id@ == bundle.bundle_name@,
        listed.principals@.len() == bundle.members@.len(),
        forall|k: int|
            0 <= k < bundle.members@.len() ==> {
                let s = #[trigger] listed.principals@[k];
                &&& s.id@ == spec_canonical(bundle.members@[k].id@, bundle.bundle_name@)
                &&& s.transport == bundle.members@[k].target
                &&& s.ready == ready@[k]
            },
        listed.hosted == (count_ready(ready@) > 0),
        (listed.state, listed.startup_health, opt_text(listed.state_reason_code), opt_text(
            listed.state_reason,
        )) == spec_list_bundle_state(bundle.members@.len(), count_ready(ready@)),
        listed.startup_failure_count == recent_startup_failures@.len(),
        listed.recent_startup_failures@ == recent_startup_failures@,
{
    let mut sessions: Vec<ListedSession> = Vec::new();
    let mut ready_count: usize = 0;
    let mut i: usize = 0;
    while i < bundle.members.len()
        invariant
            i <= bundle.members@.len(),
            ready@.len() == bundle.members@.len(),
            sessions@.len() == i,
            ready_count == count_ready(ready@.subrange(0, i as int)),
            ready_count <= i,
            forall|k: int|
                0 <= k < i ==> {
                    let s = #[trigger] sessions@[k];
                    &&& s.id@ == spec_canonical(bundle.members@[k].id@, bundle.bundle_name@)
                    &&& s.transport == bundle.members@[k].target
                    &&& s.ready == ready@[k]
                },
        decreases bundle.members@.len() - i,
    {
        let member: &BundleMember = &bundle.members[i];
        assert(ready@.subrange(0, i + 1).drop_last() =~= ready@.subrange(0, i as int));
        if ready[i] {
            ready_count = ready_count + 1;
        }
        sessions.push(
            ListedSession {
                id: canonical_session_id(member.id.as_str(), bundle.bundle_name.as_str()),
                transport: member.target,
                ready: ready[i],
            },
        );
        i = i + 1;
    }
    assert(ready@.subrange(0, ready@.len() as int) =~= ready@);
    let (state, startup_health, state_reason_code, state_reason) = list_bundle_state(
        bundle.members.len(),
        ready_count,
    );
    let startup_failure_count = recent_startup_failures.len();
    ListedBundle {
        id: bundle.bundle_name.clone(),
        hosted: ready_count > 0,
        state,
        startup_health,
        state_reason_code,
        state_reason,
        startup_failure_count,
        recent_startup_failures,
        principals: sessions,
    }
}

impl Named for ListedSession {
    open spec fn name_view(&self) -> Seq<char> {
        self.id@
    }

    fn name(&self) -> (name: &str) {
        self.id.as_str()
    }
}

/// What a listed session says: its id, its transport, and whether it is ready.
pub open spec fn session_triple(s: ListedSession) -> (Seq<char>, SessionType, bool) {
    (s.id@, s.transport, s.ready)
}

/// The relay-wide (`GLOBAL`) principals of the registry, as listing reads them.
pub open spec fn global_entries(registry: &UnifiedRegistry) -> Seq<EntryView> {
    registry.entries().filter(in_namespace("GLOBAL"@))
}

/// The relay-wide (`GLOBAL`) listing: every registered relay-wide principal,
/// declared-but-offline ones included, each ready exactly when a live
/// connection is attached, sorted by id; hosted and up exactly when some
/// principal is ready, down otherwise (an empty registry lists a down bundle
/// with no principals).
pub fn handle_global_list(registry: &UnifiedRegistry) -> (listed: ListedBundle)
    ensures
        listed.id@ == "GLOBAL"@,
        names(listed.principals@) == global_entries(registry).map_values(
            |e: EntryView| e.principal_id,
        ).sort_by(text_order()),
        listed.principals@.map_values(|s: ListedSession| session_triple(s)).to_multiset()
            == global_entries(registry).map_values(|e: EntryView| listed_entry(e)).to_multiset(),
        listed.hosted == (exists|k: int|
            0 <= k < listed.principals@.len() && (#[trigger] listed.principals@[k]).ready),
        listed.state == (if listed.hosted {
            ListedBundleState::Up
        } else {
            ListedBundleState::Down
        }),
        listed.startup_health is None,
        listed.state_reason_code is None,
        listed.state_reason is None,
        listed.startup_failure_count == 0,
        listed.recent_startup_failures@.len() == 0,
{
    let found = namespace_sessions(registry, "GLOBAL");
    let ghost triples = found@.map_values(|s: (String, SessionType, bool)| (s.0@, s.1, s.2));
    let mut sessions: Vec<ListedSession> = Vec::new();
    let mut rest = found;
    let total = rest.len();
    let mut i: usize = 0;
    while rest.len() > 0
        invariant
            rest@.len() + i == total,
            total == triples.len(),
            forall|j: int|
                0 <= j < rest@.len() ==> (#[trigger] rest@[j]).0@ == triples[i + j].0
                    && rest@[j].1 == triples[i + j].1 && rest@[j].2 == triples[i + j].2,
            sessions@.len() == i,
            forall|k: int| 0 <= k < i ==> session_triple(#[trigger] sessions@[k]) == triples[k],
        decreases rest@.len(),
    {
        let (id, transport, ready) = rest.remove(0);
        sessions.push(ListedSession { id, transport, ready });
        i = i + 1;
    }
    let ghost triples_of = sessions@.map_values(|s: ListedSession| session_triple(s));
    assert(triples_of =~= triples);
    assert(names(sessions@) =~= global_entries(registry).map_values(|e: EntryView| e.principal_id))
        by {
        assert(triples =~= global_entries(registry).map_values(|e: EntryView| listed_entry(e)));
        assert forall|k: int| 0 <= k < sessions@.len() implies names(sessions@)[k]
            == global_entries(registry).map_values(|e: EntryView| e.principal_id)[k] by {
            assert(session_triple(sessions@[k]) == triples[k]);
        }
    }
    let sorted = sort_by_name(sessions);
    proof {
        lemma_map_values_multiset(sorted@, sessions@, |s: ListedSession| session_triple(s));
        assert(sorted@.map_values(|s: ListedSession| session_triple(s)) =~= sorted@.map_values(
            |s: ListedSession| session_triple(s),
        ));
    }
    let mut hosted = false;
    let mut k: usize = 0;
    while k < sorted.len()
        invariant
            k <= sorted@.len(),
            hosted == (exists|j: int| 0 <= j < k && (#[trigger] sorted@[j]).ready),
        decreases sorted@.len() - k,
    {
        if sorted[k].ready {
            hosted = true;
        }
        k = k + 1;
    }
    ListedBundle {
        id: String::from_str("GLOBAL"),
        hosted,
        state: if hosted {
            ListedBundleState::Up
        } else {
            ListedBundleState::Down
        },
        startup_health: None,
        state_reason_code: None,
        state_reason: None,
        startup_failure_count: 0,
        recent_startup_failures: Vec::new(),
        principals: sorted,
    }
}

/// The transition entry and counts of an `up`, from what the reconciliation
/// pass did: a pass with no failures hosted the bundle when it changed
/// something and skipped it otherwise; a pass with failures reported the entry
/// `partial` (degraded or failed) built for it.
pub fn bundle_up_transition(
    bundle_name: &str,
    changed: bool,
    failures: bool,
    partial: BundleTransitionEntry,
) -> (transition: BundleTransition)
    ensures
        transition.action@ == "up"@,
        transition.bundles@.len() == 1,
        !failures && changed ==> transition.bundles@[0].outcome@ == "hosted"@
            && transition.bundles@[0].bundle_name@ == bundle_name@
            && transition.bundles@[0].reason_code is None,
        !failures && !changed ==> transition.bundles@[0].outcome@ == "skipped"@
            && transition.bundles@[0].bundle_name@ == bundle_name@ && opt_text(
            transition.bundles@[0].reason_code,
        ) == Some("already_hosted"@) && opt_text(transition.bundles@[0].reason) == Some(
            "bundle runtime is already hosted"@,
        ),
        failures ==> transition.bundles@[0] == partial,
        ({
            let outcome = transition.bundles@[0].outcome@;
            let hosted = outcome == "hosted"@;
            let degraded = outcome == "degraded"@;
            let failed = outcome == "failed"@;
            &&& transition.changed_bundle_count == (if hosted {
                1usize
            } else {
                0
            })
            &&& transition.degraded_bundle_count == (if degraded {
                1usize
            } else {
                0
            })
            &&& transition.failed_bundle_count == (if failed {
                1usize
            } else {
                0
            })
            &&& transition.skipped_bundle_count == (if !hosted && !degraded && !failed {
                1usize
            } else {
                0
            })
            &&& transition.changed_any == (hosted || degraded)
        }),
{
    let entry = if !failures {
        if changed {
            BundleTransitionEntry {
                bundle_name: String::from_str(bundle_name),
                outcome: String::from_str("hosted"),
                reason_code: None,
                reason: None,
                details: None,
            }
        } else {
            BundleTransitionEntry {
                bundle_name: String::from_str(bundle_name),
                outcome: String::from_str("skipped"),
                reason_code: Some(String::from_str("already_hosted")),
                reason: Some(String::from_str("bundle runtime is already hosted")),
                details: None,
            }
        }
    } else {
        partial
    };
    let degraded = crate::text::str_eq(entry.outcome.as_str(), "degraded");
    let failed = crate::text::str_eq(entry.outcome.as_str(), "failed");
    let hosted = crate::text::str_eq(entry.outcome.as_str(), "hosted");
    let mut bundles: Vec<BundleTransitionEntry> = Vec::new();
    bundles.push(entry);
    BundleTransition {
        action: String::from_str("up"),
        bundles,
        changed_bundle_count: if hosted {
            1
        } else {
            0
        },
        degraded_bundle_count: if degraded {
            1
        } else {
            0
        },
        skipped_bundle_count: if !hosted && !degraded && !failed {
            1
        } else {
            0
        },
        failed_bundle_count: if failed {
            1
        } else {
            0
        },
        changed_any: hosted || degraded,
    }
}

/// The entry for a bundle that came up with failures: degraded when anything
/// is ready, failed when nothing is, with the folded reason and details.
pub fn partially_started_entry(
    bundle_name: &str,
    ready_session_count: usize,
    reason: String,
    details: Option<Vec<Detail>>,
) -> (entry: BundleTransitionEntry)
    ensures
        entry.bundle_name@ == bundle_name@,
        entry.outcome@ == (if ready_session_count > 0 {
            "degraded"@
        } else {
            "failed"@
        }),
        opt_text(entry.reason_code) == Some("runtime_startup_failed"@),
        opt_text(entry.reason) == Some(reason@),
        details_view(entry.details) == details_view(details),
{
    BundleTransitionEntry {
        bundle_name: String::from_str(bundle_name),
        outcome: if ready_session_count > 0 {
            String::from_str("degraded")
        } else {
            String::from_str("failed")
        },
        reason_code: Some(String::from_str("runtime_startup_failed")),
        reason: Some(reason),
        details,
    }
}

/// The transition of a `down`: unhosted when the teardown pruned a session,
/// reaped the tmux server or signalled a worker; skipped as already unhosted
/// otherwise. A `down` never degrades or fails a bundle.
pub fn bundle_down_transition(
    bundle_name: &str,
    pruned_session_count: usize,
    killed_tmux_server: bool,
    signalled_worker_count: usize,
) -> (transition: BundleTransition)
    ensures
        ({
            let changed = pruned_session_count > 0 || killed_tmux_server || signalled_worker_count
                > 0;
            &&& transition.action@ == "down"@
            &&& transition.bundles@.len() == 1
            &&& transition.bundles@[0].bundle_name@ == bundle_name@
            &&& changed ==> transition.bundles@[0].outcome@ == "unhosted"@
                && transition.bundles@[0].reason_code is None
            &&& !changed ==> transition.bundles@[0].outcome@ == "skipped"@ && opt_text(
                transition.bundles@[0].reason_code,
            ) == Some("already_unhosted"@) && opt_text(transition.bundles@[0].reason) == Some(
                "bundle runtime is already unhosted"@,
            )
            &&& transition.changed_bundle_count == (if changed {
                1usize
            } else {
                0
            })
            &&& transition.skipped_bundle_count == (if changed {
                0usize
            } else {
                1
            })
            &&& transition.degraded_bundle_count == 0
            &&& transition.failed_bundle_count == 0
            &&& transition.changed_any == changed
        }),
{
    let changed = pruned_session_count > 0 || killed_tmux_server || signalled_worker_count > 0;
    let entry = if changed {
        BundleTransitionEntry {
            bundle_name: String::from_str(bundle_name),
            outcome: String::from_str("unhosted"),
            reason_code: None,
            reason: None,
            details: None,
        }
    } else {
        BundleTransitionEntry {
            bundle_name: String::from_str(bundle_name),
            outcome: String::from_str("skipped"),
            reason_code: Some(String::from_str("already_unhosted")),
            reason: Some(String::from_str("bundle runtime is already unhosted")),
            details: None,
        }
    };
    let mut bundles: Vec<BundleTransitionEntry> = Vec::new();
    bundles.push(entry);
    BundleTransition {
        action: String::from_str("down"),
        bundles,
        changed_bundle_count: if changed {
            1
        } else {
            0
        },
        degraded_bundle_count: 0,
        skipped_bundle_count: if changed {
            0
        } else {
            1
        },
        failed_bundle_count: 0,
        changed_any: changed,
    }
}

/// An `up` counts its one bundle exactly once: in exactly one of the changed,
/// degraded, skipped and failed counts.
pub proof fn lemma_up_counts_each_bundle_once(outcome: Seq<char>)
    ensures
        ({
            let hosted = outcome == "hosted"@;
            let degraded = outcome == "degraded"@;
            let failed = outcome == "failed"@;
            (if hosted {
                1int
            } else {
                0
            }) + (if degraded {
                1int
            } else {
                0
            }) + (if failed {
                1int
            } else {
                0
            }) + (if !hosted && !degraded && !failed {
                1int
            } else {
                0
            }) == 1
        }),
{
    reveal_strlit("hosted");
    reveal_strlit("degraded");
    reveal_strlit("failed");
    assert("hosted"@.len() != "degraded"@.len());
    assert("failed"@.len() != "degraded"@.len());
    assert("hosted"@[0] != "failed"@[0]);
}

/// A bundle is up exactly when it has configured sessions and some of them
/// are ready; an up bundle is healthy exactly when every configured session
/// is ready and degraded whenever only some are; a down bundle reports no
/// startup health.
pub proof fn lemma_startup_health_counts_every_session(configured: nat, ready: nat)
    requires
        ready <= configured,
    ensures
        (spec_list_bundle_state(configured, ready).0 == ListedBundleState::Up) <==> (configured > 0
            && ready > 0),
        configured > 0 && ready == configured ==> spec_list_bundle_state(configured, ready).1
            == Some(ListedBundleStartupHealth::Healthy),
        0 < ready < configured ==> spec_list_bundle_state(configured, ready).1 == Some(
            ListedBundleStartupHealth::Degraded,
        ),
        spec_list_bundle_state(configured, ready).1 == Some(ListedBundleStartupHealth::Healthy)
            ==> ready == configured && ready > 0,
        ready == 0 ==> spec_list_bundle_state(configured, ready).1 is None,
        configured == 0 ==> spec_list_bundle_state(configured, ready).2 == Some(
            "runtime_no_configured_sessions"@,
        ),
        configured > 0 && ready == 0 ==> spec_list_bundle_state(configured, ready).2 == Some(
            "runtime_startup_failed"@,
        ),
        configured > 0 && ready > 0 ==> spec_list_bundle_state(configured, ready).2 is None
            && spec_list_bundle_state(configured, ready).3 is None,
{
}

} // verus!
