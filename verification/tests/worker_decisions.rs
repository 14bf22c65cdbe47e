use agentmux::configuration::{BundleConfiguration, BundleMember, SessionType};
use agentmux::decisions::{
    choices_pick_answer, choices_pick_precheck, ChoiceDecisionKind, ChoiceResolutionOutcome,
    RequestPrincipal,
};
use agentmux::delivery::gate::TargetGate;
use agentmux::delivery::guard::SendOutcome;
use agentmux::delivery::results::{AsyncDeliveryTask, DeliveryPayloadMode, QuiescenceOptions};
use agentmux::delivery::worker_loop::{
    acp_queue_precheck, enqueue_decision, installed_owner_decision, payload_kind,
    rejection_refusal, submit_decision, ui_delivery_step, ui_message_parties, worker_loop_head,
    worker_waits, EnqueueAction, EnqueueRejection, PayloadKind, StreamSend, SubmitAction,
    UiPhase, UiStep, WorkerDispatch, WorkerLoopHead, WorkerObservation, WorkerTransportKind,
};
use agentmux::delivery::workers::{AsyncDeliveryRegistry, WorkerFailureReason, WorkerReadinessState};
use agentmux::discovery::{
    decide_principal_snapshot, empty_namespace_bundle, is_relay_principal, list_relays, local_namespaces,
    reject_peer_reforward, sorted_distinct,
};
use agentmux::errors::relay_error;
use agentmux::lifecycle::{acp_startup_poll, acp_startup_precheck, AcpStartupPoll};

fn task(target: &str, mode: DeliveryPayloadMode) -> AsyncDeliveryTask {
    AsyncDeliveryTask {
        bundle_name: "alpha".to_string(),
        sender_namespace: "alpha".to_string(),
        sender_session: "lead".to_string(),
        sender_display_name: None,
        authenticated_identity: None,
        on_behalf_of: None,
        all_target_sessions: vec![format!("{target}@alpha")],
        target_session: target.to_string(),
        target_is_ui: false,
        message_id: "m-1".to_string(),
        message: "hello".to_string(),
        quiescence: QuiescenceOptions::for_async(None),
        payload_mode: mode,
        append_enter: true,
        is_receipt: false,
        runtime_directory: "/run/alpha".to_string(),
        choice_decider_sessions: Vec::new(),
        sender_return_route: None,
    }
}

fn seen(shutdown: bool, dropped: bool, empty: bool, holding: bool, settled: bool) -> WorkerObservation {
    WorkerObservation {
        shutdown_requested: shutdown,
        senders_dropped: dropped,
        inflight_empty: empty,
        holding,
        bootstrap_settled: settled,
    }
}

fn strings(values: &[&str]) -> Vec<String> {
    values.iter().map(|v| v.to_string()).collect()
}

#[test]
fn a_worker_shuts_down_first_and_never_abandons_a_held_member() {
    assert_eq!(
        worker_loop_head(seen(true, false, false, true, true)),
        WorkerLoopHead::ShutDown { release_held: true }
    );
    assert_eq!(worker_loop_head(seen(false, true, true, false, true)), WorkerLoopHead::Exit);
    assert_eq!(
        worker_loop_head(seen(false, true, true, true, true)),
        WorkerLoopHead::Continue { retry_held: true }
    );
    assert_eq!(
        worker_loop_head(seen(false, false, false, true, false)),
        WorkerLoopHead::Continue { retry_held: false }
    );
    let waits = worker_waits(false, true, true, false);
    assert!(!waits.receive);
    assert!(waits.collect);
    assert!(waits.watch_readiness);
    assert!(worker_waits(false, true, false, true).receive);
    assert!(!worker_waits(false, false, false, true).receive);
}

#[test]
fn submission_follows_the_target_gate() {
    let envelope = task("coder", DeliveryPayloadMode::EnvelopeMessage);
    assert!(matches!(
        submit_decision(&envelope, WorkerTransportKind::Coder, TargetGate::Hold, 5000),
        SubmitAction::Hold
    ));
    match submit_decision(&envelope, WorkerTransportKind::Coder, TargetGate::Unreachable, 5000) {
        SubmitAction::Resolve(result) => {
            assert_eq!(result.outcome, SendOutcome::NotSubmitted);
            assert_eq!(result.reason_code.as_deref(), Some("delivery_target_unreachable"));
        },
        other => panic!("unexpected {other:?}"),
    }
    assert!(matches!(
        submit_decision(&envelope, WorkerTransportKind::Coder, TargetGate::Open, 5000),
        SubmitAction::HandEnvelope
    ));
    let raw = task("coder", DeliveryPayloadMode::RawInput);
    assert!(matches!(
        submit_decision(&raw, WorkerTransportKind::Coder, TargetGate::Open, 5000),
        SubmitAction::HandRawInput
    ));
    assert!(matches!(
        submit_decision(&raw, WorkerTransportKind::Ui, TargetGate::Open, 5000),
        SubmitAction::HandToUi
    ));
    match submit_decision(&raw, WorkerTransportKind::Pubsub, TargetGate::Open, 5000) {
        SubmitAction::Refuse(error) => assert_eq!(error.code, "runtime_session_type_not_implemented"),
        other => panic!("unexpected {other:?}"),
    }
    assert_eq!(payload_kind(true, DeliveryPayloadMode::RawInput), PayloadKind::UiEnvelope);
    assert_eq!(payload_kind(false, DeliveryPayloadMode::RawInput), PayloadKind::RawInput);
    let (code, reason) = rejection_refusal(EnqueueRejection::LedgerUnavailable);
    assert_eq!(code, "internal_unexpected_failure");
    assert_eq!(reason, "the relay could not reach its delivery ledger to queue this message");
}

#[test]
fn a_ui_delivery_is_routed_then_sent_and_times_out_while_absent() {
    let step = |phase, shutdown, answer, elapsed| {
        ui_delivery_step("ops@GLOBAL".to_string(), "m".to_string(), phase, shutdown, answer, elapsed, 1000)
    };
    assert!(matches!(step(UiPhase::Routing, false, StreamSend::Delivered, 0), UiStep::Send));
    match step(UiPhase::Sending, false, StreamSend::Delivered, 0) {
        UiStep::Finish(result) => assert_eq!(result.outcome, SendOutcome::Delivered),
        other => panic!("unexpected {other:?}"),
    }
    assert!(matches!(step(UiPhase::Sending, false, StreamSend::NoEndpoint, 999), UiStep::Retry));
    match step(UiPhase::Routing, false, StreamSend::Disconnected, 1234) {
        UiStep::Finish(result) => {
            assert_eq!(result.outcome, SendOutcome::Timeout);
            assert_eq!(result.reason.as_deref(), Some("ui relay stream was disconnected for 1234ms"));
        },
        other => panic!("unexpected {other:?}"),
    }
    match step(UiPhase::Sending, false, StreamSend::Failed("broken pipe".to_string()), 0) {
        UiStep::Finish(result) => {
            assert_eq!(result.outcome, SendOutcome::Failed);
            assert_eq!(
                result.reason.as_deref(),
                Some("failed to emit relay stream event: broken pipe")
            );
        },
        other => panic!("unexpected {other:?}"),
    }
    match step(UiPhase::Routing, true, StreamSend::Delivered, 0) {
        UiStep::Finish(result) => {
            assert_eq!(result.outcome, SendOutcome::DroppedOnShutdown);
            assert_eq!(result.reason_code.as_deref(), Some("dropped_on_shutdown"));
        },
        other => panic!("unexpected {other:?}"),
    }
    let (sender, cc) = ui_message_parties("lead", "alpha", &strings(&["coder", "ops@GLOBAL"]), "beta");
    assert_eq!(sender, "lead@alpha");
    assert_eq!(cc, Some(strings(&["coder@beta", "ops@GLOBAL"])));
    assert_eq!(ui_message_parties("lead", "alpha", &Vec::new(), "beta").1, None);
}

#[test]
fn enqueueing_respects_draining_and_fail_stopped_workers() {
    let tmux = task("coder", DeliveryPayloadMode::EnvelopeMessage);
    assert!(matches!(enqueue_decision(&tmux, false, WorkerDispatch::Accepted), EnqueueAction::Queued));
    assert!(matches!(
        enqueue_decision(&tmux, false, WorkerDispatch::Closing),
        EnqueueAction::DropOnShutdown
    ));
    assert!(matches!(
        enqueue_decision(&tmux, false, WorkerDispatch::Missing),
        EnqueueAction::SpawnWorker
    ));
    match enqueue_decision(&tmux, true, WorkerDispatch::Dropped) {
        EnqueueAction::Refuse(error) => assert_eq!(error.code, "runtime_acp_worker_unavailable"),
        other => panic!("unexpected {other:?}"),
    }
    match enqueue_decision(&tmux, false, WorkerDispatch::FailStopped) {
        EnqueueAction::Refuse(error) => assert_eq!(error.code, "delivery_target_fail_stopped"),
        other => panic!("unexpected {other:?}"),
    }
    match installed_owner_decision(&tmux, WorkerDispatch::Missing) {
        EnqueueAction::Refuse(error) => assert_eq!(
            error.message,
            "target worker was replaced while the delivery was being enqueued"
        ),
        other => panic!("unexpected {other:?}"),
    }
    assert_eq!(acp_queue_precheck(&tmux, true, false).unwrap_err().code, "runtime_acp_worker_unavailable");
    assert!(acp_queue_precheck(&tmux, true, true).is_ok());
}

#[test]
fn an_acp_startup_waits_for_readiness_until_its_deadline() {
    let acp = BundleMember { id: "coder".to_string(), name: None, target: SessionType::Acp };
    let tmux = BundleMember { id: "lead".to_string(), name: None, target: SessionType::Tmux };
    assert_eq!(acp_startup_precheck(&tmux, true, false).unwrap(), false);
    assert_eq!(acp_startup_precheck(&acp, true, true).unwrap_err().code, "runtime_startup_interrupted");
    assert_eq!(acp_startup_precheck(&acp, false, false).unwrap_err().code, "runtime_acp_initialize_failed");
    assert_eq!(acp_startup_precheck(&acp, false, true).unwrap(), true);

    let mut registry = AsyncDeliveryRegistry::new();
    registry.register_worker_if_absent("alpha", "/run/alpha", "coder");
    assert!(matches!(
        acp_startup_poll(&registry, "alpha", "/run/alpha", "coder", false, false, 30000),
        AcpStartupPoll::Wait
    ));
    match acp_startup_poll(&registry, "alpha", "/run/alpha", "coder", false, true, 30000) {
        AcpStartupPoll::Fail(failure) => {
            assert_eq!(failure.code, "runtime_startup_failed");
            assert_eq!(failure.reason, "ACP worker did not become ready during startup");
        },
        other => panic!("unexpected {other:?}"),
    }
    registry.record_worker_failure(
        "alpha",
        "/run/alpha",
        "coder",
        WorkerFailureReason {
            code: "acp_initialize_failed".to_string(),
            reason: "agent exited".to_string(),
        },
    );
    registry.set_worker_readiness("alpha", "/run/alpha", "coder", WorkerReadinessState::Unavailable);
    match acp_startup_poll(&registry, "alpha", "/run/alpha", "coder", false, false, 30000) {
        AcpStartupPoll::Fail(failure) => {
            assert_eq!(failure.code, "acp_initialize_failed");
            assert_eq!(failure.reason, "agent exited");
        },
        other => panic!("unexpected {other:?}"),
    }
    registry.set_worker_readiness("alpha", "/run/alpha", "coder", WorkerReadinessState::Busy);
    assert!(matches!(
        acp_startup_poll(&registry, "alpha", "/run/alpha", "coder", false, false, 30000),
        AcpStartupPoll::Ready
    ));
    assert!(matches!(
        acp_startup_poll(&registry, "alpha", "/run/alpha", "coder", true, false, 30000),
        AcpStartupPoll::Fail(_)
    ));
}

#[test]
fn discovery_lists_each_relay_once_in_order() {
    let relays = list_relays(strings(&["west", "east", "west", "north"]), Ok(())).unwrap();
    assert_eq!(relays, strings(&["east", "north", "west"]));
    assert_eq!(
        list_relays(strings(&["a"]), Err(relay_error("authorization_forbidden", "no", None)))
            .unwrap_err()
            .code,
        "authorization_forbidden"
    );
    assert_eq!(sorted_distinct(Vec::new()), Vec::<String>::new());
    assert_eq!(
        local_namespaces("coder@alpha", false, strings(&["beta", "alpha"])),
        strings(&["GLOBAL", "alpha"])
    );
    assert_eq!(
        local_namespaces("ops@GLOBAL", true, strings(&["beta", "alpha", "beta"])),
        strings(&["GLOBAL", "alpha", "beta"])
    );
    assert!(is_relay_principal("peer@RELAY"));
    assert!(!is_relay_principal("coder@alpha"));
    assert_eq!(reject_peer_reforward(true).unwrap_err().code, "authorization_forbidden");
    assert!(reject_peer_reforward(false).is_ok());
    let empty = empty_namespace_bundle("gamma");
    assert_eq!(empty.id, "gamma");
    assert!(!empty.hosted);
    assert!(empty.principals.is_empty());
}

#[test]
fn principal_discovery_discloses_only_covered_namespaces() {
    let denied = decide_principal_snapshot(None, None, true, "alpha").err().unwrap();
    assert_eq!(denied.code, "authorization_forbidden");
    assert_eq!(denied.message, "cross-relay discovery denied by peer relay ingress scope");
    let uncovered = decide_principal_snapshot(
        Some(empty_namespace_bundle("alpha")),
        Some("beta"),
        false,
        "alpha",
    )
    .err().unwrap();
    assert_eq!(uncovered.code, "authorization_forbidden");
    let mut hosted = empty_namespace_bundle("alpha");
    hosted.hosted = true;
    let answer = decide_principal_snapshot(Some(hosted), Some("*"), true, "alpha").ok().unwrap();
    assert!(answer.hosted);
    assert_eq!(answer.id, "alpha");
    let unhosted = decide_principal_snapshot(None, Some("gamma"), true, "gamma").ok().unwrap();
    assert_eq!(unhosted.id, "gamma");
    assert!(!unhosted.hosted);
    assert!(unhosted.principals.is_empty());
}

#[test]
fn a_choice_decision_needs_a_principal_and_reports_its_resolution() {
    let bundle = BundleConfiguration { bundle_name: "alpha".to_string(), members: Vec::new() };
    let option = Some("yes".to_string());
    assert_eq!(
        choices_pick_precheck(&bundle, "c-1", "selected", option.as_ref(), None, Ok(()))
            .unwrap_err()
            .code,
        "validation_missing_hello"
    );
    let (kind, decided_by) = choices_pick_precheck(
        &bundle,
        "c-1",
        "selected",
        option.as_ref(),
        Some(RequestPrincipal { session_id: "ops@GLOBAL".to_string() }),
        Ok(()),
    )
    .unwrap();
    assert_eq!(kind, ChoiceDecisionKind::Selected);
    assert_eq!(decided_by, "ops@GLOBAL");
    assert_eq!(
        choices_pick_precheck(&bundle, "c-1", "cancelled", option.as_ref(), None, Ok(()))
            .unwrap_err()
            .code,
        "validation_invalid_params"
    );
    let answer = choices_pick_answer(
        "c-1".to_string(),
        None,
        Ok(ChoiceResolutionOutcome::Cancelled {
            decided_by: "ops@GLOBAL".to_string(),
            reason_code: "runtime_choice_cancelled".to_string(),
            reason: None,
        }),
    )
    .unwrap();
    assert_eq!(answer.outcome, "cancelled");
    assert_eq!(answer.reason_code.as_deref(), Some("runtime_choice_cancelled"));
    let stale = choices_pick_answer(
        "c-1".to_string(),
        None,
        Err("runtime_choices_request_already_resolved".to_string()),
    )
    .unwrap_err();
    assert_eq!(stale.code, "runtime_choices_request_already_resolved");
}
