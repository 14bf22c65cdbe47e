use agentmux::configuration::{BundleConfiguration, BundleMember, ConfigurationError, SessionType};
use agentmux::errors::relay_error;
use agentmux::lifecycle::preflight_bundle_configuration;
use agentmux::delivery::workers::AsyncDeliveryRegistry;
use agentmux::errors::DetailValue;
use agentmux::lifecycle::{
    creation_failure_record, member_failure_record, pending_members, reconcile_bundle,
    record_member_startup, record_session_creations, shutdown_bundle_runtime, startup_bundle,
    startup_member, startup_members, CreationError, MemberStartup, StartupFailure,
};
use agentmux::listing::{
    build_listed_bundle, bundle_down_transition, bundle_up_transition, handle_global_list,
    list_bundle_state, partially_started_entry, session_ready_for_list, ListedBundleStartupHealth,
    ListedBundleState,
};
use agentmux::ordering::sort_by_name;
use agentmux::registry::{
    namespace_sessions, register_configured_bundle, registered_principal_ids, UnifiedRegistry,
};
use agentmux::startup_state::{append_startup_failure, load_startup_failures, StartupFailureHistory};

fn member(id: &str, target: SessionType) -> BundleMember {
    BundleMember { id: id.to_string(), name: None, target }
}

fn bundle() -> BundleConfiguration {
    BundleConfiguration {
        bundle_name: "alpha".to_string(),
        members: vec![
            member("zeta", SessionType::Tmux),
            member("alpha-agent", SessionType::Acp),
            member("mid", SessionType::Tmux),
        ],
    }
}

fn names(v: &[String]) -> Vec<&str> {
    v.iter().map(|s| s.as_str()).collect()
}

#[test]
fn names_sort_by_character_and_keep_every_name() {
    let sorted = sort_by_name(vec!["b".to_string(), "a".to_string(), "ab".to_string(), "a".to_string()]);
    assert_eq!(names(&sorted), vec!["a", "a", "ab", "b"]);
    let unicode = sort_by_name(vec!["é".to_string(), "z".to_string()]);
    assert_eq!(names(&unicode), vec!["z", "é"]);
}

#[test]
fn startup_prunes_unconfigured_sessions_in_order_and_registers_members() {
    let mut registry = UnifiedRegistry::new();
    let plan = startup_bundle(
        &mut registry,
        &bundle(),
        vec!["zeta".to_string(), "stale-b".to_string(), "stale-a".to_string()],
    );
    assert_eq!(names(&plan.stale_sessions), vec!["stale-a", "stale-b"]);
    let order: Vec<&str> = plan.members.iter().map(|m| m.id.as_str()).collect();
    assert_eq!(order, vec!["alpha-agent", "mid", "zeta"]);
    assert_eq!(
        registered_principal_ids(&registry, "alpha"),
        vec!["zeta@alpha", "alpha-agent@alpha", "mid@alpha"]
    );
}

#[test]
fn reconcile_plans_the_missing_tmux_sessions_and_the_stale_ones() {
    let mut registry = UnifiedRegistry::new();
    let plan = reconcile_bundle(
        &mut registry,
        &bundle(),
        vec!["old".to_string(), "zeta".to_string()],
        &vec!["zeta".to_string(), "old".to_string()],
    );
    assert_eq!(names(&plan.stale_sessions), vec!["old"]);
    let missing: Vec<&str> = plan.missing.iter().map(|m| m.id.as_str()).collect();
    assert_eq!(missing, vec!["mid"]);
    let failed = vec![creation_failure_record(&plan.missing[0], "tmux_failed", "no server", "t".to_string())];
    let pending: Vec<String> = pending_members(&plan.members, &failed).iter().map(|m| m.id.clone()).collect();
    assert_eq!(pending, vec!["alpha-agent", "zeta"]);
    assert_eq!(failed[0].code, "runtime_startup_failed");
    assert_eq!(failed[0].reason, "failed to create tmux session during reconciliation");
}

#[test]
fn teardown_stops_the_bundles_workers_and_prunes_in_order() {
    let mut workers = AsyncDeliveryRegistry::new();
    workers.register_worker_if_absent("alpha", "/rt", "agent");
    workers.register_worker_if_absent("beta", "/rt", "other");
    workers.register_worker_if_absent("alpha", "/elsewhere", "agent");
    let plan = shutdown_bundle_runtime(&workers, "alpha", "/rt", vec!["b".to_string(), "a".to_string()]);
    assert_eq!(names(&plan.stop_targets), vec!["agent"]);
    assert_eq!(names(&plan.prune_sessions), vec!["a", "b"]);
}

#[test]
fn each_member_is_brought_up_by_its_session_type() {
    assert!(matches!(startup_member(&member("t", SessionType::Tmux)), MemberStartup::StartTmux));
    assert!(matches!(startup_member(&member("a", SessionType::Acp)), MemberStartup::InitializeAcp));
    assert!(matches!(startup_member(&member("p", SessionType::Pty)), MemberStartup::Ready));
    match startup_member(&member("u", SessionType::Ui)) {
        MemberStartup::Unsupported(failure) => {
            assert_eq!(failure.code, "runtime_session_type_not_implemented")
        }
        _ => panic!("a ui member has no startup path"),
    }
}

#[test]
fn a_member_that_comes_up_clears_its_old_failures() {
    let mut history = StartupFailureHistory::new();
    let coder = member("coder", SessionType::Tmux);
    append_startup_failure(
        &mut history,
        member_failure_record(
            &coder,
            StartupFailure { code: "c".to_string(), reason: "r".to_string(), details: None },
            "t".to_string(),
        ),
    );
    let mut ready = 0usize;
    let mut failed = Vec::new();
    record_member_startup(&mut history, &mut ready, &mut failed, &coder, Ok(()), "t".to_string());
    assert_eq!(ready, 1);
    assert!(failed.is_empty());
    assert!(load_startup_failures(&history).is_empty());

    let agent = member("agent", SessionType::Acp);
    record_member_startup(
        &mut history,
        &mut ready,
        &mut failed,
        &agent,
        Err(StartupFailure { code: "runtime_startup_failed".to_string(), reason: "slow".to_string(), details: None }),
        "t2".to_string(),
    );
    assert_eq!(ready, 1);
    assert_eq!(failed.len(), 1);
    assert_eq!(failed[0].session_id, "agent");
    assert_eq!(failed[0].transport, SessionType::Acp);
    assert_eq!(failed[0].timestamp, "t2");
}

#[test]
fn a_bundles_state_follows_its_ready_sessions() {
    let (state, health, code, _) = list_bundle_state(0, 0);
    assert_eq!(state, ListedBundleState::Down);
    assert!(health.is_none());
    assert_eq!(code.as_deref(), Some("runtime_no_configured_sessions"));
    let (state, _, code, _) = list_bundle_state(3, 0);
    assert_eq!(state, ListedBundleState::Down);
    assert_eq!(code.as_deref(), Some("runtime_startup_failed"));
    assert_eq!(list_bundle_state(3, 3).1, Some(ListedBundleStartupHealth::Healthy));
    assert_eq!(list_bundle_state(3, 1).1, Some(ListedBundleStartupHealth::Degraded));
}

#[test]
fn a_listing_names_members_canonically_with_their_readiness() {
    let b = bundle();
    let ready: Vec<bool> = b
        .members
        .iter()
        .map(|m| session_ready_for_list(m, m.id == "zeta", false))
        .collect();
    assert_eq!(ready, vec![true, false, false]);
    let listed = build_listed_bundle(&b, &ready, Vec::new());
    assert_eq!(listed.id, "alpha");
    assert!(listed.hosted);
    assert_eq!(listed.state, ListedBundleState::Up);
    assert_eq!(listed.startup_health, Some(ListedBundleStartupHealth::Degraded));
    assert_eq!(listed.principals[0].id, "zeta@alpha");
    assert!(listed.principals[0].ready);
    assert!(session_ready_for_list(&member("p", SessionType::Pty), false, false));
    assert!(!session_ready_for_list(&member("u", SessionType::Pubsub), true, true));
}

#[test]
fn the_global_listing_is_sorted_and_down_when_empty() {
    let mut registry = UnifiedRegistry::new();
    let empty = handle_global_list(&registry);
    assert_eq!(empty.id, "GLOBAL");
    assert!(!empty.hosted);
    assert_eq!(empty.state, ListedBundleState::Down);
    registry.register_configured_session("zed@GLOBAL", SessionType::Ui);
    registry.register_configured_session("amy@GLOBAL", SessionType::Ui);
    registry.register_configured_session("coder@alpha", SessionType::Tmux);
    let listed = handle_global_list(&registry);
    let ids: Vec<&str> = listed.principals.iter().map(|p| p.id.as_str()).collect();
    assert_eq!(ids, vec!["amy@GLOBAL", "zed@GLOBAL"]);
    assert!(!listed.hosted, "offline principals are listed but host nothing");
    assert_eq!(listed.state, ListedBundleState::Down);
    assert!(listed.principals.iter().all(|p| !p.ready));
    assert!(registry.set_online("zed@GLOBAL", true));
    let listed = handle_global_list(&registry);
    assert!(listed.hosted);
    assert_eq!(listed.state, ListedBundleState::Up);
    let ready: Vec<(&str, bool)> =
        listed.principals.iter().map(|p| (p.id.as_str(), p.ready)).collect();
    assert_eq!(ready, vec![("amy@GLOBAL", false), ("zed@GLOBAL", true)]);
    assert_eq!(listed.principals[0].transport, SessionType::Ui);
}

#[test]
fn up_and_down_transitions_count_their_bundle_once() {
    let partial = partially_started_entry("alpha", 0, "nothing came up".to_string(), None);
    assert_eq!(partial.outcome, "failed");
    let up = bundle_up_transition("alpha", true, true, partial);
    assert_eq!(up.failed_bundle_count, 1);
    assert_eq!(up.changed_bundle_count + up.degraded_bundle_count + up.skipped_bundle_count, 0);
    assert!(!up.changed_any);

    let degraded = partially_started_entry("alpha", 2, "one failed".to_string(), None);
    let up = bundle_up_transition("alpha", false, true, degraded);
    assert_eq!(up.degraded_bundle_count, 1);
    assert!(up.changed_any);

    let placeholder = partially_started_entry("alpha", 1, String::new(), None);
    let hosted = bundle_up_transition("alpha", true, false, placeholder);
    assert_eq!(hosted.bundles[0].outcome, "hosted");
    assert_eq!(hosted.changed_bundle_count, 1);

    let placeholder = partially_started_entry("alpha", 1, String::new(), None);
    let skipped = bundle_up_transition("alpha", false, false, placeholder);
    assert_eq!(skipped.bundles[0].reason_code.as_deref(), Some("already_hosted"));
    assert_eq!(skipped.skipped_bundle_count, 1);

    let down = bundle_down_transition("alpha", 0, false, 1);
    assert_eq!(down.bundles[0].outcome, "unhosted");
    let noop = bundle_down_transition("alpha", 0, false, 0);
    assert_eq!(noop.bundles[0].reason_code.as_deref(), Some("already_unhosted"));
    assert_eq!(noop.skipped_bundle_count, 1);
}

#[test]
fn a_creation_failure_record_carries_its_cause() {
    let record = creation_failure_record(&member("mid", SessionType::Tmux), "E1", "boom", "t".to_string());
    let details = record.details.expect("details");
    assert_eq!(details.len(), 3);
    assert_eq!(details[0].key, "session_id");
    match &details[1].value {
        DetailValue::Text(cause) => assert_eq!(cause, "boom"),
        other => panic!("unexpected detail {other:?}"),
    }
}

#[test]
fn preflight_reports_what_loading_the_configuration_reported() {
    let bundle = BundleConfiguration { bundle_name: "alpha".to_string(), members: Vec::new() };
    assert!(preflight_bundle_configuration(Ok(bundle), Ok(())).is_ok());
    let unknown = preflight_bundle_configuration(
        Err(ConfigurationError::UnknownBundle {
            bundle_name: "ghost".to_string(),
            path: "/etc/agentmux/bundles/ghost.toml".to_string(),
        }),
        Ok(()),
    )
    .unwrap_err();
    assert_eq!(unknown.code, "validation_unknown_bundle");
    let bundle = BundleConfiguration { bundle_name: "alpha".to_string(), members: Vec::new() };
    let policy = preflight_bundle_configuration(
        Ok(bundle),
        Err(relay_error("validation_invalid_policy", "policy does not resolve", None)),
    )
    .unwrap_err();
    assert_eq!(policy.code, "validation_invalid_policy");
}

#[test]
fn registering_a_bundle_twice_changes_nothing() {
    let mut registry = UnifiedRegistry::new();
    register_configured_bundle(&mut registry, &bundle());
    assert!(registry.set_online("mid@alpha", true));
    let once = registered_principal_ids(&registry, "alpha");
    register_configured_bundle(&mut registry, &bundle());
    assert_eq!(registered_principal_ids(&registry, "alpha"), once);
    assert_eq!(names(&once), vec!["zeta@alpha", "alpha-agent@alpha", "mid@alpha"]);
    assert_eq!(registry.lookup_session_type("alpha-agent@alpha"), Some(SessionType::Acp));
    let online: Vec<(String, bool)> =
        namespace_sessions(&registry, "alpha").into_iter().map(|(id, _, up)| (id, up)).collect();
    assert_eq!(
        online,
        vec![
            ("zeta@alpha".to_string(), false),
            ("alpha-agent@alpha".to_string(), false),
            ("mid@alpha".to_string(), true),
        ]
    );
}

#[test]
fn a_startup_pass_accounts_for_every_member_in_order() {
    let mut history = StartupFailureHistory::new();
    let members = vec![
        member("alpha-agent", SessionType::Acp),
        member("mid", SessionType::Tmux),
        member("panel", SessionType::Ui),
        member("zeta", SessionType::Tmux),
    ];
    append_startup_failure(
        &mut history,
        member_failure_record(
            &members[1],
            StartupFailure { code: "old".to_string(), reason: "old".to_string(), details: None },
            "t0".to_string(),
        ),
    );
    let unsupported = match startup_member(&members[2]) {
        MemberStartup::Unsupported(failure) => failure,
        _ => panic!("a ui member has no startup path"),
    };
    let outcomes = vec![
        Err(StartupFailure { code: "runtime_startup_failed".to_string(), reason: "slow".to_string(), details: None }),
        Ok(()),
        Err(unsupported),
        Ok(()),
    ];
    let (ready, failed) = startup_members(&mut history, &members, outcomes, "t1");
    assert_eq!(ready, 2);
    assert_eq!(ready + failed.len(), members.len());
    let ids: Vec<&str> = failed.iter().map(|r| r.session_id.as_str()).collect();
    assert_eq!(ids, vec!["alpha-agent", "panel"]);
    assert_eq!(failed[1].code, "runtime_session_type_not_implemented");
    assert_eq!(failed[0].timestamp, "t1");
    assert!(load_startup_failures(&history).is_empty(), "mid came up, so its old failure is cleared");
}

#[test]
fn a_reconcile_pass_reports_what_it_created() {
    let missing = vec![member("mid", SessionType::Tmux), member("zeta", SessionType::Tmux)];
    let report = record_session_creations(
        &missing,
        vec![
            Ok(()),
            Err(CreationError { code: "tmux_failed".to_string(), message: "no server".to_string() }),
        ],
        "t",
    );
    assert_eq!(report.bootstrap_session.as_deref(), Some("mid"));
    assert_eq!(report.created_sessions, vec!["mid".to_string()]);
    assert_eq!(report.failed_startups.len(), 1);
    assert_eq!(report.failed_startups[0].session_id, "zeta");
    assert_eq!(report.failed_startups[0].code, "runtime_startup_failed");
    let failed_bootstrap = record_session_creations(
        &missing,
        vec![
            Err(CreationError { code: "tmux_failed".to_string(), message: "no server".to_string() }),
            Ok(()),
        ],
        "t",
    );
    assert!(failed_bootstrap.bootstrap_session.is_none());
    assert_eq!(failed_bootstrap.created_sessions, vec!["zeta".to_string()]);
    assert_eq!(failed_bootstrap.failed_startups[0].session_id, "mid");
}

#[test]
fn a_loaded_bundle_is_well_formed() {
    assert!(bundle().is_well_formed());
    let mut at = bundle();
    at.bundle_name = "al@pha".to_string();
    assert!(!at.is_well_formed());
    let mut empty = bundle();
    empty.bundle_name = String::new();
    assert!(!empty.is_well_formed());
    let mut relay_wide = bundle();
    relay_wide.members.push(member("ops@GLOBAL", SessionType::Ui));
    assert!(!relay_wide.is_well_formed());
    let mut blank = bundle();
    blank.members.push(member("", SessionType::Tmux));
    assert!(!blank.is_well_formed());
}
