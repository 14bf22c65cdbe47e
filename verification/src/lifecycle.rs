//! Bundle lifecycle passes: startup, reconciliation (`up`) and teardown.
//!
//! Each pass is a plan and a fold. The plan says, from the configuration and
//! what the host found running, which stale sessions to prune (sorted), which
//! members to bring up (sorted by id) and, for reconciliation, which tmux
//! sessions are missing; it also registers every configured member, so a
//! declared but not yet ready member is a known target. The host then performs
//! each step (tmux and agent processes are its own) and folds each member's
//! result into the report and the startup-failure history here.
use vstd::prelude::*;
use vstd::relations::sorted_by;
use vstd::string::*;

use crate::configuration::{
    BundleConfiguration, BundleMember, ConfigurationError, MemberView, SessionType,
};
use crate::delivery::workers::{
    bundle_worker_targets, of_bundle, readiness_is_ready, spec_failure, spec_readiness,
    AsyncDeliveryRegistry, WorkerReadinessState, WorkerView,
};
use crate::errors::{
    details_view, map_config, number_detail, number_field, one_detail, owned_text_field,
    spec_map_config, text_detail, text_field, three_details, two_details, Detail, DetailView,
    RelayError,
};
use crate::ordering::{lemma_map_values_multiset, names, sort_by_name, text_order};
use crate::registry::{
    bundle_registrations, register_configured_bundle, spec_register_all, UnifiedRegistry,
};
use crate::seqs::lemma_filter_step;
use crate::startup_state::{
    note_session_served_successfully, other_session, FailureView, StartupFailureHistory,
    StartupFailureRecord,
};
use crate::text::str_eq;

verus! {

/// What a teardown did.
pub struct ShutdownReport {
    pub pruned_sessions: Vec<String>,
    pub killed_tmux_server: bool,
}

/// What a startup pass brought up, and what it could not.
pub struct BundleStartupReport {
    pub ready_session_count: usize,
    pub failed_startups: Vec<StartupFailureRecord>,
}

/// What a reconciliation pass changed, and what is ready afterward.
pub struct ReconciliationReport {
    pub bootstrap_session: Option<String>,
    pub created_sessions: Vec<String>,
    pub pruned_sessions: Vec<String>,
    pub ready_session_count: usize,
    pub failed_startups: Vec<StartupFailureRecord>,
}

/// A member's failure to start: a code, a reason and optional details.
#[derive(Debug)]
pub struct StartupFailure {
    pub code: String,
    pub reason: String,
    pub details: Option<Vec<Detail>>,
}

/// How one member is brought up.
pub enum MemberStartup {
    /// Ensure its tmux session runs and is ready.
    StartTmux,
    /// Initialize its ACP worker and wait for readiness.
    InitializeAcp,
    /// Nothing to do at startup: the transport is built on first use.
    Ready,
    /// The session type has no startup path; it fails with this.
    Unsupported(StartupFailure),
}

/// A teardown plan: the worker targets to stop and the owned sessions to
/// prune, in order.
pub struct ShutdownPlan {
    pub stop_targets: Vec<String>,
    pub prune_sessions: Vec<String>,
}

/// A startup plan: the stale sessions to prune, in order, and the members to
/// bring up, sorted by id.
pub struct StartupPlan {
    pub stale_sessions: Vec<String>,
    pub members: Vec<BundleMember>,
}

/// A reconciliation plan: the stale sessions to prune, in order; the tmux
/// members whose session is missing, sorted by id (the first is the bootstrap
/// session); and every member, sorted by id, to bring up afterward.
pub struct ReconcilePlan {
    pub stale_sessions: Vec<String>,
    pub missing: Vec<BundleMember>,
    pub members: Vec<BundleMember>,
}

pub open spec fn is_tmux() -> spec_fn(MemberView) -> bool {
    |m: MemberView| m.target == SessionType::Tmux
}

/// Whether a name is not among `listed`.
pub open spec fn not_in(listed: Seq<Seq<char>>) -> spec_fn(Seq<char>) -> bool {
    |s: Seq<char>| !listed.contains(s)
}

/// Whether a member is a tmux member whose session is not among `existing`.
pub open spec fn missing_from(existing: Seq<Seq<char>>) -> spec_fn(MemberView) -> bool {
    |m: MemberView| m.target == SessionType::Tmux && !existing.contains(m.id)
}

/// Whether a member left no failure record among `failures`.
pub open spec fn not_failed(failures: Seq<FailureView>) -> spec_fn(MemberView) -> bool {
    |m: MemberView| forall|k: int| 0 <= k < failures.len() ==> #[trigger] failures[k].session_id != m.id
}

/// The ids of the configured tmux members, in configuration order.
pub open spec fn spec_configured_tmux(members: Seq<MemberView>) -> Seq<Seq<char>> {
    members.filter(is_tmux()).map_values(|m: MemberView| m.id)
}

/// The owned sessions no configured tmux member accounts for, sorted.
pub open spec fn spec_stale(owned: Seq<Seq<char>>, configured: Seq<Seq<char>>) -> Seq<Seq<char>> {
    owned.filter(not_in(configured)).sort_by(text_order())
}

pub open spec fn member_views(members: Seq<BundleMember>) -> Seq<MemberView> {
    members.map_values(|m: BundleMember| m@)
}

/// The members, sorted by id, holding exactly the members given.
pub open spec fn sorted_members(sorted: Seq<BundleMember>, members: Seq<MemberView>) -> bool {
    &&& sorted_by(member_views(sorted).map_values(|m: MemberView| m.id), text_order())
    &&& member_views(sorted).to_multiset() == members.to_multiset()
    &&& member_views(sorted).map_values(|m: MemberView| m.id) == members.map_values(
        |m: MemberView| m.id,
    ).sort_by(text_order())
}

/// Whether `name` is among `listed`.
fn contains_name(listed: &Vec<String>, name: &str) -> (found: bool)
    ensures
        found == names(listed@).contains(name@),
{
    let ghost view = names(listed@);
    let mut i: usize = 0;
    while i < listed.len()
        invariant
            i <= listed@.len(),
            view == names(listed@),
            forall|j: int| 0 <= j < i ==> view[j] != name@,
        decreases listed@.len() - i,
    {
        if str_eq(listed[i].as_str(), name) {
            assert(view[i as int] == name@);
            return true;
        }
        i = i + 1;
    }
    false
}

/// Copies of `members`, in order.
fn copy_members(members: &Vec<BundleMember>) -> (copy: Vec<BundleMember>)
    ensures
        member_views(copy@) == member_views(members@),
{
    let mut copy: Vec<BundleMember> = Vec::new();
    let mut i: usize = 0;
    while i < members.len()
        invariant
            i <= members@.len(),
            copy@.len() == i,
            forall|j: int| 0 <= j < i ==> #[trigger] copy@[j]@ == members@[j]@,
        decreases members@.len() - i,
    {
        copy.push(members[i].copy());
        i = i + 1;
    }
    assert(member_views(copy@) =~= member_views(members@));
    copy
}

/// `members` sorted by id.
fn members_by_id(members: &Vec<BundleMember>) -> (sorted: Vec<BundleMember>)
    ensures
        sorted_members(sorted@, member_views(members@)),
{
    let copy = copy_members(members);
    let sorted = sort_by_name(copy);
    proof {
        lemma_map_values_multiset(sorted@, copy@, |m: BundleMember| m@);
        let ids = |m: MemberView| m.id;
        assert(member_views(sorted@).map_values(ids) =~= names(sorted@));
        assert(member_views(copy@).map_values(ids) =~= names(copy@));
    }
    sorted
}

/// The ids of the configured tmux members, in configuration order.
pub fn configured_tmux_sessions(bundle: &BundleConfiguration) -> (ids: Vec<String>)
    ensures
        names(ids@) == spec_configured_tmux(bundle.members_view()),
{
    let ghost members = bundle.members_view();
    let mut ids: Vec<String> = Vec::new();
    let mut i: usize = 0;
    while i < bundle.members.len()
        invariant
            i <= bundle.members@.len(),
            members == bundle.members_view(),
            names(ids@) == members.subrange(0, i as int).filter(is_tmux()).map_values(
                |m: MemberView| m.id,
            ),
        decreases bundle.members@.len() - i,
    {
        let member: &BundleMember = &bundle.members[i];
        proof {
            lemma_filter_step(members, is_tmux(), i as int);
        }
        assert(members[i as int] == member@);
        let ghost before = names(ids@);
        let ghost kept = members.subrange(0, i as int).filter(is_tmux());
        if member.target == SessionType::Tmux {
            ids.push(member.id.clone());
            assert(names(ids@) =~= before.push(member.id@));
            assert(kept.push(member@).map_values(|m: MemberView| m.id) =~= kept.map_values(
                |m: MemberView| m.id,
            ).push(member.id@));
        }
        i = i + 1;
    }
    assert(members.subrange(0, members.len() as int) =~= members);
    ids
}

/// The owned sessions not among `configured`, sorted: the stale sessions a
/// pass prunes.
pub fn stale_owned_sessions(owned: Vec<String>, configured: &Vec<String>) -> (stale: Vec<String>)
    ensures
        names(stale@) == spec_stale(names(owned@), names(configured@)),
{
    let ghost all = names(owned@);
    let ghost keep = not_in(names(configured@));
    let mut rest = owned;
    let mut kept: Vec<String> = Vec::new();
    let total = rest.len();
    let mut i: usize = 0;
    while rest.len() > 0
        invariant
            rest@.len() + i == total,
            all.len() == total,
            keep == not_in(names(configured@)),
            forall|j: int| 0 <= j < rest@.len() ==> #[trigger] rest@[j]@ == all[i + j],
            names(kept@) == all.subrange(0, i as int).filter(keep),
        decreases rest@.len(),
    {
        let name = rest.remove(0);
        assert(name@ == all[i as int]);
        proof {
            lemma_filter_step(all, keep, i as int);
        }
        let ghost before = names(kept@);
        if !contains_name(configured, name.as_str()) {
            kept.push(name);
            assert(names(kept@) =~= before.push(all[i as int]));
        }
        assert forall|j: int| 0 <= j < rest@.len() implies #[trigger] rest@[j]@ == all[i + 1
            + j] by {}
        i = i + 1;
    }
    assert(all.subrange(0, total as int) =~= all);
    sort_by_name(kept)
}

/// Plans a bundle runtime's teardown: the delivery workers it owns are
/// stopped, then its owned tmux sessions are pruned in sorted order.
pub fn shutdown_bundle_runtime(
    registry: &AsyncDeliveryRegistry,
    bundle_name: &str,
    runtime_directory: &str,
    owned_sessions: Vec<String>,
) -> (plan: ShutdownPlan)
    ensures
        names(plan.stop_targets@) == registry.workers().filter(
            of_bundle(bundle_name@, runtime_directory@),
        ).map_values(|w: WorkerView| w.target_session),
        names(plan.prune_sessions@) == names(owned_sessions@).sort_by(text_order()),
{
    let stop_targets = bundle_worker_targets(registry, bundle_name, runtime_directory);
    assert(names(stop_targets@) =~= stop_targets@.map_values(|s: String| s@));
    let prune_sessions = sort_by_name(owned_sessions);
    ShutdownPlan { stop_targets, prune_sessions }
}

/// Plans a startup pass and registers every configured member: stale owned
/// sessions are pruned in sorted order, then every member is brought up in
/// order of id.
pub fn startup_bundle(
    registry: &mut UnifiedRegistry,
    bundle: &BundleConfiguration,
    owned_sessions: Vec<String>,
) -> (plan: StartupPlan)
    ensures
        names(plan.stale_sessions@) == spec_stale(
            names(owned_sessions@),
            spec_configured_tmux(bundle.members_view()),
        ),
        sorted_members(plan.members@, bundle.members_view()),
        final(registry).entries() == spec_register_all(
            old(registry).entries(),
            bundle_registrations(bundle.bundle_name@, bundle.members_view()),
        ),
{
    let configured = configured_tmux_sessions(bundle);
    let stale_sessions = stale_owned_sessions(owned_sessions, &configured);
    register_configured_bundle(registry, bundle);
    let members = members_by_id(&bundle.members);
    StartupPlan { stale_sessions, members }
}

/// The tmux members whose session is not among `existing`, in order.
fn missing_members(members: &Vec<BundleMember>, existing: &Vec<String>) -> (missing: Vec<
    BundleMember,
>)
    ensures
        member_views(missing@) == member_views(members@).filter(missing_from(names(existing@))),
{
    let ghost all = member_views(members@);
    let ghost keep = missing_from(names(existing@));
    let mut missing: Vec<BundleMember> = Vec::new();
    let mut i: usize = 0;
    while i < members.len()
        invariant
            i <= members@.len(),
            all == member_views(members@),
            keep == missing_from(names(existing@)),
            member_views(missing@) == all.subrange(0, i as int).filter(keep),
        decreases members@.len() - i,
    {
        let member: &BundleMember = &members[i];
        proof {
            lemma_filter_step(all, keep, i as int);
        }
        assert(all[i as int] == member@);
        let ghost before = member_views(missing@);
        if member.target == SessionType::Tmux && !contains_name(existing, member.id.as_str()) {
            missing.push(member.copy());
            assert(member_views(missing@) =~= before.push(member@));
        }
        i = i + 1;
    }
    assert(all.subrange(0, all.len() as int) =~= all);
    missing
}

/// Plans a reconciliation pass and registers every configured member: stale
/// owned sessions are pruned in sorted order, the missing tmux sessions are
/// created (the first one alone, as the bootstrap session), and then every
/// member is brought up in order of id.
pub fn reconcile_bundle(
    registry: &mut UnifiedRegistry,
    bundle: &BundleConfiguration,
    owned_sessions: Vec<String>,
    existing_sessions: &Vec<String>,
) -> (plan: ReconcilePlan)
    ensures
        names(plan.stale_sessions@) == spec_stale(
            names(owned_sessions@),
            spec_configured_tmux(bundle.members_view()),
        ),
        sorted_members(plan.members@, bundle.members_view()),
        member_views(plan.missing@) == member_views(plan.members@).filter(
            missing_from(names(existing_sessions@)),
        ),
        final(registry).entries() == spec_register_all(
            old(registry).entries(),
            bundle_registrations(bundle.bundle_name@, bundle.members_view()),
        ),
{
    register_configured_bundle(registry, bundle);
    let members = members_by_id(&bundle.members);
    let configured = configured_tmux_sessions(bundle);
    let missing = missing_members(&members, existing_sessions);
    let stale_sessions = stale_owned_sessions(owned_sessions, &configured);
    ReconcilePlan { stale_sessions, missing, members }
}

/// Whether some record among `failures` belongs to `session_id`.
fn has_failure(failures: &Vec<StartupFailureRecord>, session_id: &str) -> (found: bool)
    ensures
        found == exists|k: int|
            0 <= k < failures@.len() && #[trigger] failures@[k]@.session_id == session_id@,
{
    let mut i: usize = 0;
    while i < failures.len()
        invariant
            i <= failures@.len(),
            forall|k: int| 0 <= k < i ==> #[trigger] failures@[k]@.session_id != session_id@,
        decreases failures@.len() - i,
    {
        if str_eq(failures[i].session_id.as_str(), session_id) {
            assert(failures@[i as int]@.session_id == session_id@);
            return true;
        }
        i = i + 1;
    }
    false
}

/// The members still to bring up after the creation phase: those that left
/// no failure record, in order.
pub fn pending_members(members: &Vec<BundleMember>, failures: &Vec<StartupFailureRecord>) -> (pending:
    Vec<BundleMember>)
    ensures
        member_views(pending@) == member_views(members@).filter(
            not_failed(failures@.map_values(|r: StartupFailureRecord| r@)),
        ),
{
    let ghost all = member_views(members@);
    let ghost failed = failures@.map_values(|r: StartupFailureRecord| r@);
    let ghost keep = not_failed(failed);
    let mut pending: Vec<BundleMember> = Vec::new();
    let mut i: usize = 0;
    while i < members.len()
        invariant
            i <= members@.len(),
            all == member_views(members@),
            failed == failures@.map_values(|r: StartupFailureRecord| r@),
            keep == not_failed(failed),
            member_views(pending@) == all.subrange(0, i as int).filter(keep),
        decreases members@.len() - i,
    {
        let member: &BundleMember = &members[i];
        proof {
            lemma_filter_step(all, keep, i as int);
        }
        assert(all[i as int] == member@);
        let ghost before = member_views(pending@);
        let failed_here = has_failure(failures, member.id.as_str());
        if failed_here {
            proof {
                let k = choose|k: int|
                    0 <= k < failures@.len() && #[trigger] failures@[k]@.session_id == member.id@;
                assert(failed[k].session_id == member.id@);
                assert(!keep(member@));
            }
        } else {
            assert forall|k: int| 0 <= k < failed.len() implies #[trigger] failed[k].session_id
                != member.id@ by {
                assert(failed[k] == failures@[k]@);
            }
            assert(keep(member@));
            pending.push(member.copy());
            assert(member_views(pending@) =~= before.push(member@));
        }
        i = i + 1;
    }
    assert(all.subrange(0, all.len() as int) =~= all);
    pending
}

/// How a member is brought up, by its session type.
pub fn startup_member(member: &BundleMember) -> (step: MemberStartup)
    ensures
        member.target == SessionType::Tmux ==> step is StartTmux,
        member.target == SessionType::Acp ==> step is InitializeAcp,
        member.target == SessionType::Pty ==> step is Ready,
        (member.target == SessionType::Ui || member.target == SessionType::Pubsub) ==> (step
            matches MemberStartup::Unsupported(failure) && failure.code@
            == "runtime_session_type_not_implemented"@ && failure.reason@
            == "session type delivery is not yet implemented"@ && failure.details is None),
{
    match member.target {
        SessionType::Tmux => MemberStartup::StartTmux,
        SessionType::Acp => MemberStartup::InitializeAcp,
        SessionType::Pty => MemberStartup::Ready,
        SessionType::Ui | SessionType::Pubsub => MemberStartup::Unsupported(
            StartupFailure {
                code: String::from_str("runtime_session_type_not_implemented"),
                reason: String::from_str("session type delivery is not yet implemented"),
                details: None,
            },
        ),
    }
}

/// The record of a member's failure to start, stamped `timestamp`; the
/// history numbers it when it is persisted.
pub fn member_failure_record(member: &BundleMember, failure: StartupFailure, timestamp: String) -> (record:
    StartupFailureRecord)
    ensures
        record@ == (FailureView {
            session_id: member.id@,
            transport: member.target,
            code: failure.code@,
            reason: failure.reason@,
            timestamp: timestamp@,
            sequence: 0,
            details: details_view(failure.details),
        }),
{
    StartupFailureRecord {
        session_id: member.id.clone(),
        transport: member.target,
        code: failure.code,
        reason: failure.reason,
        timestamp,
        sequence: 0,
        details: failure.details,
    }
}

/// The record of a member whose tmux session could not be created.
pub fn creation_failure_record(
    member: &BundleMember,
    error_code: &str,
    error_message: &str,
    timestamp: String,
) -> (record: StartupFailureRecord)
    ensures
        record@ == (FailureView {
            session_id: member.id@,
            transport: member.target,
            code: "runtime_startup_failed"@,
            reason: "failed to create tmux session during reconciliation"@,
            timestamp: timestamp@,
            sequence: 0,
            details: Some(
                seq![
                    text_detail("session_id"@, member.id@),
                    text_detail("cause"@, error_message@),
                    text_detail("error_code"@, error_code@),
                ],
            ),
        }),
{
    StartupFailureRecord {
        session_id: member.id.clone(),
        transport: member.target,
        code: String::from_str("runtime_startup_failed"),
        reason: String::from_str("failed to create tmux session during reconciliation"),
        timestamp,
        sequence: 0,
        details: three_details(
            owned_text_field("session_id", member.id.clone()),
            text_field("cause", error_message),
            text_field("error_code", error_code),
        ),
    }
}

/// Folds one member's bring-up result into a pass: a member that came up is
/// counted and its old failure records are cleared; one that did not is
/// recorded as failed.
pub fn record_member_startup(
    history: &mut StartupFailureHistory,
    ready_session_count: &mut usize,
    failed_startups: &mut Vec<StartupFailureRecord>,
    member: &BundleMember,
    outcome: Result<(), StartupFailure>,
    timestamp: String,
)
    requires
        *old(ready_session_count) < usize::MAX,
    ensures
        outcome is Ok ==> {
            &&& *final(ready_session_count) == *old(ready_session_count) + 1
            &&& final(failed_startups)@ == old(failed_startups)@
            &&& final(history).records() == old(history).records().filter(
                other_session(member.id@),
            )
            &&& final(history).next() == old(history).next()
        },
        outcome matches Err(failure) ==> {
            &&& *final(ready_session_count) == *old(ready_session_count)
            &&& final(failed_startups)@.map_values(|r: StartupFailureRecord| r@) == old(
                failed_startups,
            )@.map_values(|r: StartupFailureRecord| r@).push(
                FailureView {
                    session_id: member.id@,
                    transport: member.target,
                    code: failure.code@,
                    reason: failure.reason@,
                    timestamp: timestamp@,
                    sequence: 0,
                    details: details_view(failure.details),
                },
            )
            &&& final(history).records() == old(history).records()
            &&& final(history).next() == old(history).next()
        },
{
    match outcome {
        Ok(()) => {
            note_session_served_successfully(history, member.id.as_str());
            *ready_session_count = *ready_session_count + 1;
        },
        Err(failure) => {
            let ghost before = failed_startups@.map_values(|r: StartupFailureRecord| r@);
            let record = member_failure_record(member, failure, timestamp);
            failed_startups.push(record);
            assert(failed_startups@.map_values(|r: StartupFailureRecord| r@) =~= before.push(
                record@,
            ));
        },
    }
}

/// What creating the missing sessions of a reconciliation pass came to.
#[derive(Debug)]
pub struct CreationReport {
    /// The first missing session, created alone before the others, when its
    /// creation succeeded.
    pub bootstrap_session: Option<String>,
    /// The sessions created, in the order they were missing.
    pub created_sessions: Vec<String>,
    /// A record for each session that could not be created, in the same order.
    pub failed_startups: Vec<StartupFailureRecord>,
}

/// Why creating a tmux session failed: its error code and message.
pub struct CreationError {
    pub code: String,
    pub message: String,
}

/// The sessions a pass created, in order.
pub open spec fn spec_created(
    missing: Seq<BundleMember>,
    results: Seq<Result<(), CreationError>>,
) -> Seq<Seq<char>>
    decreases missing.len(),
{
    if missing.len() == 0 || results.len() != missing.len() {
        seq![]
    } else {
        let rest = spec_created(missing.drop_last(), results.drop_last());
        if results.last() is Ok {
            rest.push(missing.last().id@)
        } else {
            rest
        }
    }
}

/// The records of the sessions a pass could not create, in order.
pub open spec fn spec_creation_failures(
    missing: Seq<BundleMember>,
    results: Seq<Result<(), CreationError>>,
    timestamp: Seq<char>,
) -> Seq<FailureView>
    decreases missing.len(),
{
    if missing.len() == 0 || results.len() != missing.len() {
        seq![]
    } else {
        let rest = spec_creation_failures(missing.drop_last(), results.drop_last(), timestamp);
        match results.last() {
            Ok(_) => rest,
            Err(error) => rest.push(
                FailureView {
                    session_id: missing.last().id@,
                    transport: missing.last().target,
                    code: "runtime_startup_failed"@,
                    reason: "failed to create tmux session during reconciliation"@,
                    timestamp,
                    sequence: 0,
                    details: Some(
                        seq![
                            text_detail("session_id"@, missing.last().id@),
                            text_detail("cause"@, error.message@),
                            text_detail("error_code"@, error.code@),
                        ],
                    ),
                },
            ),
        }
    }
}

/// Folds the creation phase of a reconciliation pass: `results[k]` is how
/// creating `missing[k]`'s session went (the first alone, as the bootstrap
/// session, the rest after it). Each missing session is either created or
/// recorded as a failed startup, never both, and a failure does not stop the
/// pass; the bootstrap session is reported only when it was created.
pub fn record_session_creations(
    missing: &Vec<BundleMember>,
    results: Vec<Result<(), CreationError>>,
    timestamp: &str,
) -> (report: CreationReport)
    requires
        results@.len() == missing@.len(),
    ensures
        report.created_sessions@.map_values(|s: String| s@) == spec_created(missing@, results@),
        report.failed_startups@.map_values(|r: StartupFailureRecord| r@) == spec_creation_failures(
            missing@,
            results@,
            timestamp@,
        ),
        report.created_sessions@.len() + report.failed_startups@.len() == missing@.len(),
        missing@.len() > 0 && results@[0] is Ok ==> report.bootstrap_session is Some
            && report.bootstrap_session.unwrap()@ == missing@[0].id@
            && report.created_sessions@[0]@ == missing@[0].id@,
        !(missing@.len() > 0 && results@[0] is Ok) ==> report.bootstrap_session is None,
{
    let ghost all = results@;
    let mut rest = results;
    let mut created: Vec<String> = Vec::new();
    let mut failed: Vec<StartupFailureRecord> = Vec::new();
    let mut bootstrap: Option<String> = None;
    let mut i: usize = 0;
    while i < missing.len()
        invariant
            i <= missing@.len(),
            all.len() == missing@.len(),
            rest@.len() + i == all.len(),
            forall|j: int| 0 <= j < rest@.len() ==> #[trigger] rest@[j] == all[i + j],
            created@.map_values(|s: String| s@) == spec_created(
                missing@.take(i as int),
                all.take(i as int),
            ),
            failed@.map_values(|r: StartupFailureRecord| r@) == spec_creation_failures(
                missing@.take(i as int),
                all.take(i as int),
                timestamp@,
            ),
            created@.len() + failed@.len() == i,
            i > 0 && all[0] is Ok ==> bootstrap is Some && bootstrap.unwrap()@ == missing@[0].id@
                && created@.len() > 0 && created@[0]@ == missing@[0].id@,
            !(i > 0 && all[0] is Ok) ==> bootstrap is None,
        decreases missing@.len() - i,
    {
        let result = rest.remove(0);
        assert(result == all[i as int]);
        assert(all.take(i + 1).drop_last() =~= all.take(i as int));
        assert(missing@.take(i + 1).drop_last() =~= missing@.take(i as int));
        assert(all.take(i + 1).last() == all[i as int]);
        assert(missing@.take(i + 1).last() == missing@[i as int]);
        let member = &missing[i];
        match result {
            Ok(()) => {
                let ghost before = created@.map_values(|s: String| s@);
                let ghost first = if created@.len() > 0 {
                    created@[0]
                } else {
                    member.id
                };
                if i == 0 {
                    bootstrap = Some(member.id.clone());
                }
                created.push(member.id.clone());
                assert(created@.map_values(|s: String| s@) =~= before.push(member.id@));
                assert(created@[0]@ == first@);
            },
            Err(error) => {
                let ghost before = failed@.map_values(|r: StartupFailureRecord| r@);
                let record = creation_failure_record(
                    member,
                    error.code.as_str(),
                    error.message.as_str(),
                    String::from_str(timestamp),
                );
                failed.push(record);
                assert(failed@.map_values(|r: StartupFailureRecord| r@) =~= before.push(record@));
            },
        }
        assert forall|j: int| 0 <= j < rest@.len() implies #[trigger] rest@[j] == all[i + 1 + j] by {}
        i = i + 1;
    }
    assert(all.take(all.len() as int) =~= all);
    assert(missing@.take(missing@.len() as int) =~= missing@);
    CreationReport { bootstrap_session: bootstrap, created_sessions: created, failed_startups: failed }
}

/// The failure record a member's failed bring-up leaves, stamped `timestamp`.
pub open spec fn failure_of(member: BundleMember, failure: StartupFailure, timestamp: Seq<char>) -> FailureView {
    FailureView {
        session_id: member.id@,
        transport: member.target,
        code: failure.code@,
        reason: failure.reason@,
        timestamp,
        sequence: 0,
        details: details_view(failure.details),
    }
}

/// The records a pass leaves for the members whose bring-up failed, in
/// member order.
pub open spec fn spec_failed_startups(
    members: Seq<BundleMember>,
    outcomes: Seq<Result<(), StartupFailure>>,
    timestamp: Seq<char>,
) -> Seq<FailureView>
    decreases members.len(),
{
    if members.len() == 0 || outcomes.len() != members.len() {
        seq![]
    } else {
        let rest = spec_failed_startups(members.drop_last(), outcomes.drop_last(), timestamp);
        match outcomes.last() {
            Ok(_) => rest,
            Err(failure) => rest.push(failure_of(members.last(), failure, timestamp)),
        }
    }
}

/// How many members of a pass came up.
pub open spec fn spec_ready_count(outcomes: Seq<Result<(), StartupFailure>>) -> nat
    decreases outcomes.len(),
{
    if outcomes.len() == 0 {
        0
    } else {
        spec_ready_count(outcomes.drop_last()) + if outcomes.last() is Ok {
            1nat
        } else {
            0nat
        }
    }
}

/// The history after a pass: each member that came up has its old failure
/// records cleared, in member order.
pub open spec fn spec_cleared(
    records: Seq<FailureView>,
    members: Seq<BundleMember>,
    outcomes: Seq<Result<(), StartupFailure>>,
) -> Seq<FailureView>
    decreases members.len(),
{
    if members.len() == 0 || outcomes.len() != members.len() {
        records
    } else {
        let rest = spec_cleared(records, members.drop_last(), outcomes.drop_last());
        if outcomes.last() is Ok {
            rest.filter(other_session(members.last().id@))
        } else {
            rest
        }
    }
}

/// Folds a whole bring-up pass: `outcomes[k]` is how bringing up
/// `members[k]` went. Every member is either counted ready (its old failure
/// records cleared) or recorded failed, so the ready count and the failures
/// add up to the members; failures come in member order, which is id order
/// for the members a startup plan lists.
pub fn startup_members(
    history: &mut StartupFailureHistory,
    members: &Vec<BundleMember>,
    outcomes: Vec<Result<(), StartupFailure>>,
    timestamp: &str,
) -> (pass: (usize, Vec<StartupFailureRecord>))
    requires
        outcomes@.len() == members@.len(),
    ensures
        pass.0 == spec_ready_count(outcomes@),
        pass.1@.map_values(|r: StartupFailureRecord| r@) == spec_failed_startups(
            members@,
            outcomes@,
            timestamp@,
        ),
        pass.0 + pass.1@.len() == members@.len(),
        final(history).records() == spec_cleared(old(history).records(), members@, outcomes@),
        final(history).next() == old(history).next(),
{
    let ghost all = outcomes@;
    let mut rest = outcomes;
    let mut ready: usize = 0;
    let mut failed: Vec<StartupFailureRecord> = Vec::new();
    let mut i: usize = 0;
    while i < members.len()
        invariant
            i <= members@.len(),
            all.len() == members@.len(),
            rest@.len() + i == all.len(),
            forall|j: int| 0 <= j < rest@.len() ==> #[trigger] rest@[j] == all[i + j],
            ready == spec_ready_count(all.take(i as int)),
            failed@.map_values(|r: StartupFailureRecord| r@) == spec_failed_startups(
                members@.take(i as int),
                all.take(i as int),
                timestamp@,
            ),
            ready + failed@.len() == i,
            history.records() == spec_cleared(
                old(history).records(),
                members@.take(i as int),
                all.take(i as int),
            ),
            history.next() == old(history).next(),
        decreases members@.len() - i,
    {
        let outcome = rest.remove(0);
        assert(outcome == all[i as int]);
        assert(all.take(i + 1).drop_last() =~= all.take(i as int));
        assert(members@.take(i + 1).drop_last() =~= members@.take(i as int));
        assert(all.take(i + 1).last() == all[i as int]);
        assert(members@.take(i + 1).last() == members@[i as int]);
        let member = &members[i];
        match outcome {
            Ok(()) => {
                note_session_served_successfully(history, member.id.as_str());
                ready = ready + 1;
            },
            Err(failure) => {
                let ghost before = failed@.map_values(|r: StartupFailureRecord| r@);
                let record = member_failure_record(
                    member,
                    failure,
                    String::from_str(timestamp),
                );
                failed.push(record);
                assert(failed@.map_values(|r: StartupFailureRecord| r@) =~= before.push(record@));
            },
        }
        assert forall|j: int| 0 <= j < rest@.len() implies #[trigger] rest@[j] == all[i + 1 + j] by {}
        i = i + 1;
    }
    assert(all.take(all.len() as int) =~= all);
    assert(members@.take(members@.len() as int) =~= members@);
    (ready, failed)
}

/// Every configured tmux member is accounted for: no session of a configured
/// tmux member is ever planned for pruning.
pub proof fn lemma_configured_sessions_are_never_stale(
    owned: Seq<Seq<char>>,
    members: Seq<MemberView>,
    i: int,
)
    requires
        0 <= i < members.len(),
        members[i].target == SessionType::Tmux,
    ensures
        !spec_stale(owned, spec_configured_tmux(members)).contains(members[i].id),
{
    broadcast use vstd::seq_lib::group_filter_ensures, vstd::seq_lib::group_to_multiset_ensures;

    let configured = spec_configured_tmux(members);
    members.lemma_filter_contains(is_tmux(), i);
    let k = choose|k: int|
        0 <= k < members.filter(is_tmux()).len() && members.filter(is_tmux())[k] == members[i];
    assert(configured[k] == members[i].id);
    let kept = owned.filter(not_in(configured));
    crate::ordering::lemma_text_order_is_total();
    kept.lemma_sort_by_ensures(text_order());
    if spec_stale(owned, configured).contains(members[i].id) {
        assert(spec_stale(owned, configured).to_multiset().count(members[i].id) > 0);
        assert(kept.to_multiset().count(members[i].id) > 0);
        assert(kept.contains(members[i].id));
        let j = choose|j: int| 0 <= j < kept.len() && kept[j] == members[i].id;
        owned.lemma_filter_pred(not_in(configured), j);
    }
}

/// A startup failure, as text and viewed details.
pub open spec fn failure_view(failure: StartupFailure) -> (Seq<char>, Seq<char>, Option<Seq<DetailView>>) {
    (failure.code@, failure.reason@, details_view(failure.details))
}

/// The failure of a member startup abandoned because the relay is shutting
/// down.
pub open spec fn interrupted_view(target_session: Seq<char>) -> (Seq<char>, Seq<char>, Option<Seq<DetailView>>) {
    (
        "runtime_startup_interrupted"@,
        "relay shutdown requested during ACP worker startup"@,
        Some(seq![text_detail("target_session"@, target_session)]),
    )
}

/// Reports a member startup abandoned because the relay is shutting down.
pub fn startup_interrupted_error(target_session: &str) -> (failure: StartupFailure)
    ensures
        failure_view(failure) == interrupted_view(target_session@),
{
    StartupFailure {
        code: String::from_str("runtime_startup_interrupted"),
        reason: String::from_str("relay shutdown requested during ACP worker startup"),
        details: one_detail(text_field("target_session", target_session)),
    }
}

/// What precedes an ACP member's worker: whether the member needs one at
/// all (only ACP members do), refused once the relay is shutting down (no
/// agent is spawned for a relay on its way out) and when the member has no
/// working directory to run in.
pub fn acp_startup_precheck(member: &BundleMember, shutdown_requested: bool, has_working_directory: bool) -> (checked:
    Result<bool, StartupFailure>)
    ensures
        member.target != SessionType::Acp ==> checked == Ok::<bool, StartupFailure>(false),
        member.target == SessionType::Acp && shutdown_requested ==> checked is Err && failure_view(
            checked->Err_0,
        ) == interrupted_view(member.id@),
        member.target == SessionType::Acp && !shutdown_requested && !has_working_directory
            ==> checked is Err && failure_view(checked->Err_0) == (
            "runtime_acp_initialize_failed"@,
            "ACP startup requires target working directory"@,
            Some(seq![text_detail("target_session"@, member.id@)]),
        ),
        member.target == SessionType::Acp && !shutdown_requested && has_working_directory
            ==> checked == Ok::<bool, StartupFailure>(true),
{
    if member.target != SessionType::Acp {
        return Ok(false);
    }
    if shutdown_requested {
        return Err(startup_interrupted_error(member.id.as_str()));
    }
    if !has_working_directory {
        return Err(
            StartupFailure {
                code: String::from_str("runtime_acp_initialize_failed"),
                reason: String::from_str("ACP startup requires target working directory"),
                details: one_detail(text_field("target_session", member.id.as_str())),
            },
        );
    }
    Ok(true)
}

/// What one poll of an ACP member's startup wait does.
#[derive(Debug)]
pub enum AcpStartupPoll {
    /// The worker is ready: the member started.
    Ready,
    /// Not settled yet: sleep and poll again.
    Wait,
    /// The member failed to start.
    Fail(StartupFailure),
}

/// The code and reason of a failed startup: what the worker recorded about
/// itself, when it recorded anything, else the fallback.
pub open spec fn recorded_or(
    recorded: Option<(Seq<char>, Seq<char>)>,
    code: Seq<char>,
    reason: Seq<char>,
) -> (Seq<char>, Seq<char>) {
    match recorded {
        Some(r) => r,
        None => (code, reason),
    }
}

fn startup_failure_error(
    recorded: Option<crate::delivery::workers::WorkerFailureReason>,
    fallback_code: &str,
    fallback_reason: &str,
    details: Option<Vec<Detail>>,
) -> (failure: StartupFailure)
    ensures
        (failure.code@, failure.reason@) == recorded_or(
            match recorded {
                None => None,
                Some(f) => Some((f.code@, f.reason@)),
            },
            fallback_code@,
            fallback_reason@,
        ),
        details_view(failure.details) == details_view(details),
{
    match recorded {
        Some(f) => StartupFailure { code: f.code, reason: f.reason, details },
        None => StartupFailure {
            code: String::from_str(fallback_code),
            reason: String::from_str(fallback_reason),
            details,
        },
    }
}

/// One poll of an ACP member's startup wait, on the worker registry: a
/// shutdown interrupts it; a ready worker (available or busy) ends it; an
/// unavailable one fails it; one still settling fails it once the deadline
/// passed, else waits. A failure carries what the worker recorded about
/// itself when it recorded anything.
pub fn acp_startup_poll(
    registry: &AsyncDeliveryRegistry,
    namespace: &str,
    runtime_directory: &str,
    target_session: &str,
    shutdown_requested: bool,
    past_deadline: bool,
    timeout_ms: u64,
) -> (poll: AcpStartupPoll)
    ensures
        ({
            let readiness = spec_readiness(
                registry.workers(),
                namespace@,
                runtime_directory@,
                target_session@,
            );
            let recorded = spec_failure(
                registry.workers(),
                namespace@,
                runtime_directory@,
                target_session@,
            );
            &&& shutdown_requested ==> poll is Fail && failure_view(poll->Fail_0) == interrupted_view(
                target_session@,
            )
            &&& !shutdown_requested && readiness_is_ready(readiness) ==> poll is Ready
            &&& !shutdown_requested && readiness == Some(WorkerReadinessState::Unavailable)
                ==> poll is Fail && (poll->Fail_0.code@, poll->Fail_0.reason@) == recorded_or(
                recorded,
                "runtime_acp_worker_unavailable"@,
                "ACP worker is unavailable after startup"@,
            ) && details_view(poll->Fail_0.details) == Some(
                seq![text_detail("target_session"@, target_session@)],
            )
            &&& !shutdown_requested && !readiness_is_ready(readiness) && readiness != Some(
                WorkerReadinessState::Unavailable,
            ) ==> if past_deadline {
                poll is Fail && (poll->Fail_0.code@, poll->Fail_0.reason@) == recorded_or(
                    recorded,
                    "runtime_startup_failed"@,
                    "ACP worker did not become ready during startup"@,
                ) && details_view(poll->Fail_0.details) == Some(
                    seq![
                        text_detail("target_session"@, target_session@),
                        number_detail("timeout_ms"@, timeout_ms),
                    ],
                )
            } else {
                poll is Wait
            }
        }),
{
    if shutdown_requested {
        return AcpStartupPoll::Fail(startup_interrupted_error(target_session));
    }
    let readiness = registry.get_worker_readiness(namespace, runtime_directory, target_session);
    if crate::delivery::workers::acp_readiness_is_ready(readiness) {
        return AcpStartupPoll::Ready;
    }
    match readiness {
        Some(WorkerReadinessState::Unavailable) => {
            let recorded = registry.get_worker_failure(namespace, runtime_directory, target_session);
            AcpStartupPoll::Fail(
                startup_failure_error(
                    recorded,
                    "runtime_acp_worker_unavailable",
                    "ACP worker is unavailable after startup",
                    one_detail(text_field("target_session", target_session)),
                ),
            )
        },
        _ => {
            if past_deadline {
                let recorded = registry.get_worker_failure(
                    namespace,
                    runtime_directory,
                    target_session,
                );
                AcpStartupPoll::Fail(
                    startup_failure_error(
                        recorded,
                        "runtime_startup_failed",
                        "ACP worker did not become ready during startup",
                        two_details(
                            text_field("target_session", target_session),
                            number_field("timeout_ms", timeout_ms),
                        ),
                    ),
                )
            } else {
                AcpStartupPoll::Wait
            }
        },
    }
}

/// Validates a bundle's configuration exactly as startup does, from what
/// loading it turned out to be: a bundle that failed to load is reported as
/// its configuration error maps, and otherwise the outcome of resolving its
/// authorization policy stands. Nothing runtime is touched.
pub fn preflight_bundle_configuration(
    bundle: Result<BundleConfiguration, ConfigurationError>,
    authorization: Result<(), RelayError>,
) -> (checked: Result<(), RelayError>)
    ensures
        match bundle {
            Err(e) => checked is Err && checked->Err_0@ == spec_map_config(e),
            Ok(_) => match authorization {
                Err(e) => checked is Err && checked->Err_0@ == e@,
                Ok(()) => checked is Ok,
            },
        },
{
    match bundle {
        Err(e) => Err(map_config(e)),
        Ok(_) => authorization,
    }
}

} // verus!
