use agentmux::configuration::{
    BundleConfiguration, BundleMember, SessionType, UserSession, UsersConfiguration,
};
use agentmux::delivery::permission_state::{
    PermissionDecisionKind, PermissionDecisionRequest, PermissionDetails, PermissionQueue,
    PermissionResolutionOutcome,
};
use agentmux::delivery::workers::{
    read_worker_readiness, test_cleanup_acp_workers, wait_for_async_delivery_shutdown,
    AsyncDeliveryRegistry, ShutdownWait, WorkerFailureReason, WorkerReadinessState,
};
use agentmux::drain::{drain_wait_step, ConnectionDrainReport, DrainCounters, DrainWaitStep};
use agentmux::registry::{
    register_configured_bundle, register_configured_relay_wide_principals,
    registered_principal_ids, UnifiedRegistry,
};
use agentmux::startup_state::{
    append_startup_failure, load_startup_failures, note_session_served_successfully,
    persist_startup_failures, StartupFailureHistory, StartupFailureRecord,
};

fn details(options: &[&str]) -> PermissionDetails {
    PermissionDetails {
        document: "{}".to_string(),
        option_ids: options.iter().map(|o| o.to_string()).collect(),
    }
}

fn member(id: &str, target: SessionType) -> BundleMember {
    BundleMember { id: id.to_string(), name: None, target }
}

fn failure(session: &str) -> StartupFailureRecord {
    StartupFailureRecord {
        session_id: session.to_string(),
        transport: SessionType::Tmux,
        code: "runtime_startup_failed".to_string(),
        reason: "no pane".to_string(),
        timestamp: "2024-01-01T00:00:00Z".to_string(),
        sequence: 0,
        details: None,
    }
}

#[test]
fn permission_requests_queue_in_sequence_and_resolve_once() {
    let mut queue = PermissionQueue::new();
    let first = queue
        .enqueue_with("p-1".to_string(), "m-1", "coder", "edit", details(&["allow", "deny"]), "t".to_string(), 4)
        .expect("room");
    let second = queue
        .enqueue_with("p-2".to_string(), "m-2", "tester", "edit", details(&["allow"]), "t".to_string(), 4)
        .expect("room");
    assert!(first.sequence < second.sequence);
    assert_eq!(queue.list_pending_permission_requests().len(), 2);

    let resolved = queue
        .resolve_permission_request(PermissionDecisionRequest {
            permission_request_id: "p-1".to_string(),
            option_id: Some("allow".to_string()),
            decision: PermissionDecisionKind::Selected,
            decided_by: "ops@GLOBAL".to_string(),
        })
        .expect("pending request resolves");
    assert_eq!(resolved.record.permission_request_id, "p-1");
    assert!(matches!(resolved.outcome, PermissionResolutionOutcome::Selected { .. }));

    let again = queue.resolve_permission_request(PermissionDecisionRequest {
        permission_request_id: "p-1".to_string(),
        option_id: Some("allow".to_string()),
        decision: PermissionDecisionKind::Selected,
        decided_by: "ops@GLOBAL".to_string(),
    });
    assert_eq!(again.unwrap_err(), "runtime_permission_request_already_resolved");
}

#[test]
fn a_selection_of_an_unoffered_option_is_refused_but_still_takes_the_request() {
    let mut queue = PermissionQueue::new();
    queue
        .enqueue_with("p-1".to_string(), "m-1", "coder", "edit", details(&["allow"]), "t".to_string(), 4)
        .expect("room");
    let refused = queue.resolve_permission_request(PermissionDecisionRequest {
        permission_request_id: "p-1".to_string(),
        option_id: Some("deny".to_string()),
        decision: PermissionDecisionKind::Selected,
        decided_by: "ops@GLOBAL".to_string(),
    });
    assert_eq!(
        refused.unwrap_err(),
        "validation_invalid_params: selected option_id 'deny' is not present in pending permission options"
    );
    assert!(queue.list_pending_permission_requests().is_empty());
}

#[test]
fn a_full_queue_refuses_new_requests() {
    let mut queue = PermissionQueue::new();
    queue
        .enqueue_with("p-1".to_string(), "m", "coder", "edit", details(&[]), "t".to_string(), 1)
        .expect("room");
    let full = queue.enqueue_with("p-2".to_string(), "m", "coder", "edit", details(&[]), "t".to_string(), 1);
    assert_eq!(full.unwrap_err(), "runtime_permission_queue_full");
}

#[test]
fn a_respawn_invalidates_exactly_its_sessions_requests() {
    let mut queue = PermissionQueue::new();
    for (id, target) in [("p-1", "coder"), ("p-2", "tester"), ("p-3", "coder")] {
        queue
            .enqueue_with(id.to_string(), "m", target, "edit", details(&[]), "t".to_string(), 8)
            .expect("room");
    }
    let invalidated = queue.invalidate_pending_for_respawn("coder");
    let ids: Vec<String> = invalidated.iter().map(|r| r.permission_request_id.clone()).collect();
    assert_eq!(ids, vec!["p-1", "p-3"]);
    let left: Vec<String> = queue
        .list_pending_permission_requests()
        .iter()
        .map(|r| r.permission_request_id.clone())
        .collect();
    assert_eq!(left, vec!["p-2"]);
}

#[test]
fn shutdown_cancels_a_pending_request_and_reports_a_resolved_one() {
    let mut queue = PermissionQueue::new();
    queue
        .enqueue_with("p-1".to_string(), "m", "coder", "edit", details(&[]), "t".to_string(), 8)
        .expect("room");
    let cancelled = queue.cancel_permission_request_on_shutdown("p-1");
    assert!(cancelled.record.is_some());
    match cancelled.outcome {
        PermissionResolutionOutcome::Cancelled { reason_code, decided_by, .. } => {
            assert_eq!(reason_code, "runtime_permission_request_cancelled");
            assert_eq!(decided_by, "relay");
        }
        other => panic!("expected a cancellation, got {other:?}"),
    }
    let gone = queue.cancel_permission_request_on_shutdown("p-1");
    assert!(gone.record.is_none());
    match gone.outcome {
        PermissionResolutionOutcome::Cancelled { reason_code, .. } => {
            assert_eq!(reason_code, "runtime_permission_request_already_resolved")
        }
        other => panic!("expected a cancellation, got {other:?}"),
    }
}

#[test]
fn configured_members_are_registered_offline_and_listed_by_namespace() {
    let bundle = BundleConfiguration {
        bundle_name: "alpha".to_string(),
        members: vec![member("coder", SessionType::Tmux), member("agent", SessionType::Acp)],
    };
    let users = UsersConfiguration {
        sessions: vec![UserSession { id: "ops@GLOBAL".to_string(), session_type: SessionType::Ui }],
    };
    let mut registry = UnifiedRegistry::new();
    register_configured_bundle(&mut registry, &bundle);
    register_configured_relay_wide_principals(&mut registry, Some(&users));
    register_configured_relay_wide_principals(&mut registry, None);
    assert_eq!(registered_principal_ids(&registry, "alpha"), vec!["coder@alpha", "agent@alpha"]);
    assert_eq!(registered_principal_ids(&registry, "GLOBAL"), vec!["ops@GLOBAL"]);
    assert!(registered_principal_ids(&registry, "beta").is_empty());

    // Registration is idempotent and keeps the connection state.
    assert!(registry.set_online("coder@alpha", true));
    register_configured_bundle(&mut registry, &bundle);
    assert_eq!(registered_principal_ids(&registry, "alpha").len(), 2);
    assert_eq!(registry.lookup_session_type("agent@alpha"), Some(SessionType::Acp));
    assert!(!registry.set_online("ghost@alpha", true));
}

#[test]
fn worker_readiness_reads_back_what_was_set() {
    let mut workers = AsyncDeliveryRegistry::new();
    assert_eq!(read_worker_readiness(&workers, "alpha", "/rt", "agent"), None);
    assert!(workers.register_worker_if_absent("alpha", "/rt", "agent"));
    assert!(!workers.register_worker_if_absent("alpha", "/rt", "agent"));
    assert_eq!(read_worker_readiness(&workers, "alpha", "/rt", "agent"), None);
    for (state, name) in [
        (WorkerReadinessState::Initializing, "initializing"),
        (WorkerReadinessState::Available, "available"),
        (WorkerReadinessState::Busy, "busy"),
        (WorkerReadinessState::Recovering, "recovering"),
        (WorkerReadinessState::Unavailable, "unavailable"),
    ] {
        assert!(workers.set_worker_readiness("alpha", "/rt", "agent", state));
        assert_eq!(read_worker_readiness(&workers, "alpha", "/rt", "agent"), Some(name));
    }
    assert!(!workers.set_worker_readiness("alpha", "/rt", "ghost", WorkerReadinessState::Busy));
    assert!(workers.record_worker_failure(
        "alpha",
        "/rt",
        "agent",
        WorkerFailureReason { code: "runtime_acp_initialize_failed".to_string(), reason: "boom".to_string() },
    ));
    assert_eq!(
        workers.get_worker_failure("alpha", "/rt", "agent").map(|f| f.code),
        Some("runtime_acp_initialize_failed".to_string())
    );
}

#[test]
fn cleanup_removes_only_the_workers_of_one_runtime_directory() {
    let mut workers = AsyncDeliveryRegistry::new();
    workers.register_worker_if_absent("alpha", "/a", "one");
    workers.register_worker_if_absent("alpha", "/b", "two");
    workers.register_worker_if_absent("beta", "/a", "three");
    test_cleanup_acp_workers(&mut workers, "/a");
    assert_eq!(workers.worker_count(), 1);
    assert!(workers.unregister_worker("alpha", "/b", "two"));
    assert_eq!(workers.worker_count(), 0);
}

#[test]
fn the_delivery_shutdown_wait_ends_on_drain_or_deadline() {
    let mut workers = AsyncDeliveryRegistry::new();
    assert_eq!(wait_for_async_delivery_shutdown(&workers, 0, 100), ShutdownWait::Finished(0));
    workers.register_worker_if_absent("alpha", "/rt", "agent");
    assert_eq!(wait_for_async_delivery_shutdown(&workers, 100, 100), ShutdownWait::Finished(1));
    assert_eq!(wait_for_async_delivery_shutdown(&workers, 0, 100), ShutdownWait::Sleep(25));
    assert_eq!(wait_for_async_delivery_shutdown(&workers, 90, 100), ShutdownWait::Sleep(10));
}

#[test]
fn startup_failures_are_numbered_and_cleared_per_session() {
    let mut history = StartupFailureHistory::new();
    let stored = append_startup_failure(&mut history, failure("coder"));
    assert_eq!(stored.sequence, 1);
    let persisted = persist_startup_failures(&mut history, &vec![failure("agent"), failure("coder")]);
    let sequences: Vec<u64> = persisted.iter().map(|r| r.sequence).collect();
    assert_eq!(sequences, vec![2, 3]);
    assert_eq!(load_startup_failures(&history).len(), 3);

    note_session_served_successfully(&mut history, "coder");
    let left = load_startup_failures(&history);
    assert_eq!(left.len(), 1);
    assert_eq!(left[0].session_id, "agent");
    assert_eq!(left[0].sequence, 2);

    // A session whose history is already clear is cheap to note again.
    note_session_served_successfully(&mut history, "coder");
    assert_eq!(load_startup_failures(&history).len(), 1);
    assert_eq!(history.next_sequence(), 4);
}

#[test]
fn stored_histories_must_be_in_sequence_order() {
    let mut a = failure("x");
    a.sequence = 5;
    let mut b = failure("y");
    b.sequence = 3;
    assert!(StartupFailureHistory::from_records(vec![a, b]).is_none());
    let mut c = failure("x");
    c.sequence = 5;
    let history = StartupFailureHistory::from_records(vec![c]).expect("ordered");
    assert_eq!(history.next_sequence(), 6);
}

#[test]
fn drain_counters_count_exits_after_the_signal_as_drained() {
    let mut counters = DrainCounters::new();
    counters.register_worker();
    counters.register_worker();
    counters.release_worker();
    counters.signal_shutdown();
    assert!(counters.shutdown_signaled());
    counters.begin_serving();
    assert_eq!(
        drain_wait_step(&counters, 0, 1000),
        DrainWaitStep::Sleep(25)
    );
    assert_eq!(
        drain_wait_step(&counters, 1000, 1000),
        DrainWaitStep::Report(ConnectionDrainReport {
            drained_worker_count: 0,
            remaining_worker_count: 1,
            remaining_serving_count: 1,
            timed_out: true,
        })
    );
    counters.end_serving();
    counters.release_worker();
    assert_eq!(
        drain_wait_step(&counters, 10, 1000),
        DrainWaitStep::Report(ConnectionDrainReport {
            drained_worker_count: 1,
            remaining_worker_count: 0,
            remaining_serving_count: 0,
            timed_out: false,
        })
    );
}
