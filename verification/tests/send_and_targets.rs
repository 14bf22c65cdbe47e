use agentmux::configuration::{BundleConfiguration, BundleMember, SessionType, UiSession};
use agentmux::delivery::guard::SendOutcome;
use agentmux::delivery::results::{shutdown_receipt, DeliveryPayloadMode, SenderReturnRoute};
use agentmux::delivery::worker_loop::{enqueue_decision, EnqueueAction, WorkerDispatch};
use agentmux::groups::CatalogBundle;
use agentmux::operations::{RawwTransport, SenderIdentity};
use agentmux::registry::UnifiedRegistry;
use agentmux::send::{
    check_cross_relay_available, decide_ingress, execute_send, ingress_sender, prepare_send,
    raww_preflight, refused_ingress_target, send_preflight, GroupDeliveryContext, RawwPreflight,
    SendRefusal,
};
use agentmux::single_target::{can_be_written, check_raww_target, execute_raww, prepare_look};

fn member(id: &str, target: SessionType) -> BundleMember {
    BundleMember { id: id.to_string(), name: Some(format!("{id} name")), target }
}

fn bundle(name: &str, ids: &[(&str, SessionType)]) -> BundleConfiguration {
    BundleConfiguration {
        bundle_name: name.to_string(),
        members: ids.iter().map(|(id, t)| member(id, *t)).collect(),
    }
}

fn alpha() -> BundleConfiguration {
    bundle(
        "alpha",
        &[("lead", SessionType::Tmux), ("coder", SessionType::Acp), ("tester", SessionType::Tmux)],
    )
}

fn ui() -> Vec<UiSession> {
    vec![UiSession { id: "ops@GLOBAL".to_string(), display_name: Some("Ops".to_string()) }]
}

fn strings(values: &[&str]) -> Vec<String> {
    values.iter().map(|v| v.to_string()).collect()
}

#[test]
fn a_send_is_checked_for_shape_before_its_sender() {
    let catalog: Vec<CatalogBundle> = Vec::new();
    let blank = prepare_send(&alpha(), &ui(), &catalog, "nobody", "  ", &strings(&["coder"]), false)
        .unwrap_err();
    assert_eq!(blank.code, "validation_invalid_arguments");
    let none = prepare_send(&alpha(), &ui(), &catalog, "lead", "hi", &Vec::new(), false).unwrap_err();
    assert_eq!(none.code, "validation_empty_targets");
    let both = prepare_send(&alpha(), &ui(), &catalog, "lead", "hi", &strings(&["coder"]), true)
        .unwrap_err();
    assert_eq!(both.code, "validation_conflicting_targets");
    let stranger = prepare_send(&alpha(), &ui(), &catalog, "nobody", "hi", &strings(&["coder"]), false)
        .unwrap_err();
    assert_eq!(stranger.code, "validation_unknown_sender");
}

#[test]
fn a_broadcast_goes_to_every_other_member() {
    let catalog: Vec<CatalogBundle> = Vec::new();
    let prepared =
        prepare_send(&alpha(), &ui(), &catalog, "lead", "hello", &Vec::new(), true).unwrap();
    assert_eq!(prepared.sender.session_id, "lead");
    assert_eq!(prepared.sender.display_name.as_deref(), Some("lead name"));
    assert_eq!(prepared.groups.len(), 1);
    let ids: Vec<&str> =
        prepared.groups[0].targets.iter().map(|t| t.session_id.as_str()).collect();
    assert_eq!(ids, vec!["coder", "tester"]);
    assert!(prepared.groups[0].targets.iter().all(|t| !t.is_ui));
}

#[test]
fn a_queued_send_reports_one_queued_result_per_target_in_order() {
    let catalog: Vec<CatalogBundle> = Vec::new();
    let prepared = prepare_send(
        &alpha(),
        &ui(),
        &catalog,
        "lead",
        "hello",
        &strings(&["tester", "coder", "ops@GLOBAL"]),
        false,
    )
    .unwrap();
    let queued = execute_send(
        &prepared,
        "alpha",
        "hello",
        Some("req-1".to_string()),
        Some("lead@alpha".to_string()),
        None,
        Some(0),
        &vec![GroupDeliveryContext {
            bundle_name: "alpha".to_string(),
            runtime_directory: "/run/alpha".to_string(),
            choice_decider_sessions: strings(&["ops@GLOBAL"]),
        }],
        &Some(SenderReturnRoute {
            member: member("lead", SessionType::Tmux),
            runtime_directory: "/run/alpha".to_string(),
        }),
    )
    .unwrap();
    let labels: Vec<&str> =
        queued.response.results.iter().map(|r| r.target_session.as_str()).collect();
    assert_eq!(labels, vec!["tester@alpha", "coder@alpha", "ops@GLOBAL"]);
    assert!(queued.response.results.iter().all(|r| r.outcome == SendOutcome::Queued));
    assert_eq!(queued.tasks.len(), 3);
    for (task, result) in queued.tasks.iter().zip(queued.response.results.iter()) {
        assert_eq!(task.message_id, result.message_id);
        assert_eq!(task.all_target_sessions, strings(&["tester@alpha", "coder@alpha", "ops@GLOBAL"]));
        assert_eq!(task.message, "hello");
        assert_eq!(task.sender_session, "lead");
        assert_eq!(task.sender_namespace, "alpha");
        assert_eq!(task.payload_mode, DeliveryPayloadMode::EnvelopeMessage);
        assert!(task.append_enter);
        assert_eq!(task.quiescence.quiet_window_ms, 750);
        assert_eq!(task.runtime_directory, "/run/alpha");
        assert_eq!(task.choice_decider_sessions, strings(&["ops@GLOBAL"]));
        let route = task.sender_return_route.as_ref().unwrap();
        assert_eq!(route.member.id, "lead");
        assert_eq!(route.runtime_directory, "/run/alpha");
    }
    assert!(queued.tasks[2].target_is_ui);
    for task in &queued.tasks {
        let id = task.message_id.as_bytes();
        assert_eq!(id.len(), 36, "a hyphenated UUID");
        assert_eq!(id[14], b'4', "a version-4 UUID");
        assert!(matches!(id[19], b'8' | b'9' | b'a' | b'b'), "the RFC 4122 variant");
    }
    assert_ne!(queued.tasks[0].message_id, queued.tasks[1].message_id);
    assert_eq!(queued.response.requester_session, "lead@alpha");
    assert_eq!(queued.response.request_id.as_deref(), Some("req-1"));
    assert_eq!(queued.response.authenticated_identity.as_deref(), Some("lead@alpha"));
}

#[test]
fn a_look_checks_its_window_then_its_target() {
    let beta = bundle("beta", &[("worker", SessionType::Tmux)]);
    let catalog = vec![CatalogBundle { bundle_name: "beta".to_string(), configuration: Ok(beta) }];
    let wide = prepare_look(&alpha(), &ui(), &catalog, "lead", "coder", Some(1001)).unwrap_err();
    assert_eq!(wide.code, "validation_invalid_lines");
    let local = prepare_look(&alpha(), &ui(), &catalog, "lead", "coder", None).unwrap();
    assert_eq!(local.bundle_name, "alpha");
    assert_eq!(local.target.id, "coder");
    let peer = prepare_look(&alpha(), &ui(), &catalog, "ops@GLOBAL", "worker@beta", Some(5)).unwrap();
    assert_eq!(peer.bundle_name, "beta");
    assert_eq!(peer.requester.display_name.as_deref(), Some("Ops"));
    let unknown_bundle =
        prepare_look(&alpha(), &ui(), &catalog, "lead", "worker@gamma", None).unwrap_err();
    assert_eq!(unknown_bundle.code, "validation_unknown_bundle");
    let unknown_target =
        prepare_look(&alpha(), &ui(), &catalog, "lead", "nobody@beta", None).unwrap_err();
    assert_eq!(unknown_target.code, "validation_unknown_target");
    let reserved =
        prepare_look(&alpha(), &ui(), &catalog, "lead", "peer@RELAY", None).unwrap_err();
    assert_eq!(reserved.code, "validation_unsupported_namespace");
}

#[test]
fn a_raww_target_must_take_raw_input() {
    let mut registry = UnifiedRegistry::new();
    let with_ui = bundle("alpha", &[("coder", SessionType::Tmux), ("panel", SessionType::Ui)]);
    assert_eq!(check_raww_target(&with_ui, "alpha", "coder", &registry).unwrap(), 0);
    let refused = check_raww_target(&with_ui, "alpha", "panel", &registry).unwrap_err();
    assert_eq!(refused.code, "validation_unsupported_operation");
    let unknown = check_raww_target(&with_ui, "alpha", "ghost", &registry).unwrap_err();
    assert_eq!(unknown.code, "validation_unknown_target");
    // The registered transport wins over the configured one.
    registry.register_configured_session("coder@alpha", SessionType::Pubsub);
    let registered = check_raww_target(&with_ui, "alpha", "coder", &registry).unwrap_err();
    assert_eq!(registered.code, "validation_unsupported_operation");
    assert!(can_be_written(SessionType::Pty));
    assert!(!can_be_written(SessionType::Pubsub));
}

#[test]
fn a_raww_is_queued_as_raw_input() {
    let sender = SenderIdentity { session_id: "lead".to_string(), display_name: None };
    let (task, answer) =
        execute_raww(
            &alpha(),
            1,
            &sender,
            "alpha",
            "ls\n".to_string(),
            true,
            Some("r".to_string()),
            "/run/alpha",
            &strings(&["ops@GLOBAL"]),
        )
        .unwrap();
    assert_eq!(answer.status, "queued");
    assert_eq!(answer.target_session, "coder@alpha");
    assert_eq!(answer.transport, RawwTransport::Acp);
    assert_eq!(answer.message_id, task.message_id);
    assert_eq!(task.payload_mode, DeliveryPayloadMode::RawInput);
    assert!(!task.append_enter);
    assert_eq!(task.all_target_sessions, strings(&["coder@alpha"]));
    assert!(task.authenticated_identity.is_none());
    assert_eq!(task.runtime_directory, "/run/alpha");
    assert_eq!(task.choice_decider_sessions, strings(&["ops@GLOBAL"]));
    assert!(task.sender_return_route.is_none());
    let panel = bundle("alpha", &[("panel", SessionType::Ui)]);
    let refused =
        execute_raww(&panel, 0, &sender, "alpha", "x".to_string(), false, None, "/run/alpha", &Vec::new())
            .unwrap_err();
    assert_eq!(refused.code, "runtime_session_type_not_implemented");
}

#[test]
fn a_task_dropped_on_shutdown_answers_its_sender_with_a_receipt() {
    let catalog: Vec<CatalogBundle> = Vec::new();
    let prepared =
        prepare_send(&alpha(), &ui(), &catalog, "lead", "body", &strings(&["coder"]), false).unwrap();
    let queued = execute_send(
        &prepared,
        "alpha",
        "body",
        None,
        None,
        None,
        None,
        &vec![GroupDeliveryContext {
            bundle_name: "alpha".to_string(),
            runtime_directory: "/enqueue-target-rt".to_string(),
            choice_decider_sessions: Vec::new(),
        }],
        &Some(SenderReturnRoute {
            member: member("lead", SessionType::Tmux),
            runtime_directory: "/enqueue-sender-rt".to_string(),
        }),
    )
    .unwrap();
    let task = &queued.tasks[0];
    assert!(matches!(
        enqueue_decision(task, false, WorkerDispatch::Closing),
        EnqueueAction::DropOnShutdown
    ));
    let receipt = shutdown_receipt(task).expect("a routed sender gets a receipt");
    assert!(receipt.is_receipt);
    assert!(receipt.message.contains("dropped on relay shutdown"));
    assert!(receipt.message.contains(task.message_id.as_str()));
    assert!(receipt.message.contains("coder@alpha"));
    assert_eq!(receipt.target_session, "lead");
    assert_eq!(receipt.bundle_name, "alpha");
    assert_eq!(receipt.runtime_directory, "/enqueue-sender-rt");
    assert_eq!(receipt.message_id, task.message_id);
    assert!(receipt.sender_return_route.is_none());
    assert!(shutdown_receipt(&receipt).is_none(), "a receipt is never answered with another");
}

#[test]
fn only_a_peer_relay_may_assert_an_origin() {
    let peer = decide_ingress(Some("edge@RELAY"), "alpha", Some("alice@team".to_string()));
    assert!(peer.relay_ingress);
    assert_eq!(peer.home_namespace, "RELAY");
    assert_eq!(peer.on_behalf_of.as_deref(), Some("alice@team"));
    let session = decide_ingress(Some("lead@alpha"), "alpha", Some("alice@team".to_string()));
    assert!(!session.relay_ingress);
    assert_eq!(session.home_namespace, "alpha");
    assert!(session.on_behalf_of.is_none());
    let anonymous = decide_ingress(None, "alpha", Some("x@y".to_string()));
    assert!(!anonymous.relay_ingress);
    assert!(anonymous.on_behalf_of.is_none());
    let targets = vec![None, Some("west".to_string()), Some("east".to_string())];
    assert_eq!(refused_ingress_target(true, &targets), Some(1));
    assert_eq!(refused_ingress_target(false, &targets), None);
    assert_eq!(refused_ingress_target(true, &vec![None, None]), None);
}

#[test]
fn a_peer_relay_sends_as_itself_and_needs_a_peer_manager_for_foreign_targets() {
    let sender = ingress_sender("edge@RELAY");
    assert_eq!(sender.session_id, "edge@RELAY");
    assert!(sender.display_name.is_none());
    let foreign = vec![None, Some("west".to_string())];
    let refused = check_cross_relay_available(false, &foreign).unwrap_err();
    assert_eq!(refused.code, "runtime_cross_relay_unavailable");
    assert_eq!(refused.message, "cross-relay routing is not available on this relay");
    assert!(check_cross_relay_available(true, &foreign).is_ok());
    assert!(check_cross_relay_available(false, &vec![None, None]).is_ok());
}

#[test]
fn a_send_with_no_recipients_still_succeeds() {
    let solo = bundle("solo", &[("lead", SessionType::Tmux)]);
    let catalog: Vec<CatalogBundle> = Vec::new();
    let prepared = prepare_send(&solo, &ui(), &catalog, "lead", "hi", &Vec::new(), true).unwrap();
    assert!(prepared.groups.iter().all(|g| g.targets.is_empty()));
    let queued = execute_send(&prepared, "solo", "hi", None, None, None, None, &vec![GroupDeliveryContext {
        bundle_name: "solo".to_string(),
        runtime_directory: "/run/solo".to_string(),
        choice_decider_sessions: Vec::new(),
    }], &None)
    .unwrap();
    assert!(queued.tasks.is_empty());
    assert!(queued.response.results.is_empty());
    assert_eq!(queued.response.requester_session, "lead@solo");
}

#[test]
fn a_send_is_refused_in_the_relays_order() {
    let foreign = vec![None, Some("west".to_string())];
    let local = vec![None];
    // Shape comes first, even for an unknown sender on a relay with no peers.
    let shape = send_preflight(&alpha(), &ui(), None, "alpha", "nobody", " ", 1, false, None, &foreign, false)
        .unwrap_err();
    assert!(matches!(shape, SendRefusal::Refused(e) if e.code == "validation_invalid_arguments"));
    // Then the sender, before the missing peer manager.
    let sender = send_preflight(&alpha(), &ui(), None, "alpha", "nobody", "hi", 1, false, None, &foreign, false)
        .unwrap_err();
    assert!(matches!(sender, SendRefusal::Refused(e) if e.code == "validation_unknown_sender"));
    // A peer relay naming a foreign target is refused before the manager check.
    let ingress = send_preflight(&alpha(), &ui(), Some("edge@RELAY"), "alpha", "x", "hi", 2, false, None, &foreign, false)
        .unwrap_err();
    assert!(matches!(ingress, SendRefusal::IngressCrossRelayTarget(1)));
    let unavailable = send_preflight(&alpha(), &ui(), Some("lead@alpha"), "alpha", "lead@alpha", "hi", 2, false, None, &foreign, false)
        .unwrap_err();
    assert!(matches!(unavailable, SendRefusal::Refused(e) if e.code == "runtime_cross_relay_unavailable"));
    let (decision, sender) = send_preflight(
        &alpha(), &ui(), Some("edge@RELAY"), "alpha", "x", "hi", 1, false,
        Some("alice@team".to_string()), &local, false,
    )
    .unwrap();
    assert!(decision.relay_ingress);
    assert_eq!(decision.on_behalf_of.as_deref(), Some("alice@team"));
    assert_eq!(sender.session_id, "edge@RELAY");
    let (decision, sender) =
        send_preflight(&alpha(), &ui(), None, "alpha", "lead@alpha", "hi", 1, false, Some("x".to_string()), &local, false)
            .unwrap();
    assert!(!decision.relay_ingress);
    assert!(decision.on_behalf_of.is_none());
    assert_eq!(sender.session_id, "lead");
}

#[test]
fn a_raww_is_refused_in_the_relays_order() {
    let blank = raww_preflight(&alpha(), &ui(), None, "alpha", "nobody", " ", "ls", &Some("west".to_string()))
        .unwrap_err();
    assert!(matches!(blank, SendRefusal::Refused(e) if e.message == "target_session must be non-empty"));
    let sender = raww_preflight(&alpha(), &ui(), None, "alpha", "nobody", "coder", "ls", &None).unwrap_err();
    assert!(matches!(sender, SendRefusal::Refused(e) if e.code == "validation_unknown_sender"));
    let peer = raww_preflight(&alpha(), &ui(), Some("edge@RELAY"), "alpha", "x", "coder@beta", "ls", &Some("west".to_string()))
        .unwrap_err();
    assert!(matches!(peer, SendRefusal::IngressCrossRelayTarget(_)));
    assert!(matches!(
        raww_preflight(&alpha(), &ui(), None, "alpha", "lead", "coder@beta", "ls", &Some("west".to_string())),
        Ok(RawwPreflight::Forward(_, _))
    ));
    assert!(matches!(
        raww_preflight(&alpha(), &ui(), None, "alpha", "lead", "coder", "ls", &None),
        Ok(RawwPreflight::Local(_, s)) if s.session_id == "lead"
    ));
}
