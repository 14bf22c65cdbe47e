use agentmux::configuration::{BundleConfiguration, BundleMember, ConfigurationError, SessionType, UiSession};
use agentmux::contract::{
    authorize_bundle_principal, handle_request, handle_request_with_principal,
    normalize_request_identities, RelayRequest, RequestRoute,
};
use agentmux::cross_relay::{
    broadcast_targets, cross_relay_result_from_error, cross_relay_target_label,
    failed_cross_relay_result, forwarded_send_result, validate_send_request, ForwardReply,
};
use agentmux::decisions::{
    choice_decision_kind, handle_permission_decision, handle_permission_list,
    map_choice_resolution_error, map_permission_resolution_error, permission_decision_kind,
    validate_choice_decision_request, validate_permission_decision_request, ChoiceDecisionKind,
    PermissionDecisionRequestContext, RequestPrincipal,
};
use agentmux::delivery::fence::{
    fence_step, observation_deadline, observation_step, FenceOutcome, FenceResolution, FenceStep,
    FenceVerdict, FenceWindow, ObservationStep,
};
use agentmux::delivery::guard::SendOutcome;
use agentmux::delivery::permission_state::{PermissionDecisionKind, PermissionDetails, PermissionQueue};
use agentmux::delivery::results::{
    build_tmux_envelopes, deliver_acp_combined, replicate_outcome_for_batch,
    single_outcome_to_send_result, target_unreachable_result, wait_error_to_send_result,
    AcpDelivery, AsyncDeliveryTask, DeliveryPayloadMode, DeliveryWaitError, QuiescenceOptions,
    SendResult,
};
use agentmux::errors::{map_config, map_tui_config, relay_error, DetailValue, RelayError};
use agentmux::groups::{resolve_target_groups, CatalogBundle};
use agentmux::operations::{
    look_window, raww_dispatch_outcome, raww_target, resolve_look_target_bundle,
    resolve_sender_identity, validate_look_lines, validate_raww_request, LookWindow, RawwTransport,
};
use agentmux::text::{is_blank, push_decimal, trim};

fn member(id: &str, target: SessionType) -> BundleMember {
    BundleMember { id: id.to_string(), name: Some(format!("{id} name")), target }
}

fn bundle(name: &str, ids: &[(&str, SessionType)]) -> BundleConfiguration {
    BundleConfiguration {
        bundle_name: name.to_string(),
        members: ids.iter().map(|(id, t)| member(id, *t)).collect(),
    }
}

fn task(target: &str, message_id: &str) -> AsyncDeliveryTask {
    AsyncDeliveryTask {
        bundle_name: "alpha".to_string(),
        sender_namespace: "alpha".to_string(),
        sender_session: "lead".to_string(),
        sender_display_name: None,
        authenticated_identity: None,
        on_behalf_of: None,
        all_target_sessions: vec![target.to_string()],
        target_session: target.to_string(),
        target_is_ui: false,
        message_id: message_id.to_string(),
        message: "hello".to_string(),
        quiescence: QuiescenceOptions::for_async(None),
        payload_mode: DeliveryPayloadMode::EnvelopeMessage,
        append_enter: false,
        is_receipt: false,
        runtime_directory: "/run/alpha".to_string(),
        choice_decider_sessions: Vec::new(),
        sender_return_route: None,
    }
}

fn result(outcome: SendOutcome, code: Option<&str>) -> SendResult {
    SendResult {
        target_session: "coder".to_string(),
        message_id: "m".to_string(),
        outcome,
        reason_code: code.map(|c| c.to_string()),
        reason: None,
        details: None,
    }
}

#[test]
fn trimming_follows_unicode_white_space() {
    assert_eq!(trim("  a b \t\n"), "a b");
    assert_eq!(trim("\u{3000}x\u{00A0}"), "x");
    assert!(is_blank(" \u{2028} "));
    assert!(!is_blank(" x "));
    let mut s = String::from("n=");
    push_decimal(&mut s, 1200);
    assert_eq!(s, "n=1200");
}

#[test]
fn target_operations_route_unchanged_and_the_rest_is_made_bundle_local() {
    let send = RelayRequest::Send {
        request_id: None,
        requester_session: "coder@alpha".to_string(),
        message: "hi".to_string(),
        targets: vec!["x@alpha".to_string()],
        broadcast: false,
        quiet_window_ms: None,
        on_behalf_of: None,
    };
    assert!(matches!(handle_request(send, "alpha"), Ok(RequestRoute::SendRouted(_))));
    let list = RelayRequest::List { requester_session: Some("coder@alpha".to_string()) };
    match handle_request(list, "alpha") {
        Ok(RequestRoute::Bundle(RelayRequest::List { requester_session })) => {
            assert_eq!(requester_session.as_deref(), Some("coder"))
        }
        other => panic!("unexpected route {other:?}"),
    }
    let admin = handle_request(RelayRequest::ChangePsk { principal_id: "p@RELAY".to_string() }, "alpha");
    assert_eq!(admin.unwrap_err().code, "internal_unexpected_request");
    match normalize_request_identities(
        RelayRequest::Look {
            requester_session: "a@alpha".to_string(),
            target_session: "b@beta".to_string(),
            lines: None,
            offset: None,
        },
        "alpha",
    ) {
        RelayRequest::Look { requester_session, target_session, .. } => {
            assert_eq!(requester_session, "a");
            assert_eq!(target_session, "b@beta");
        }
        other => panic!("unexpected request {other:?}"),
    }
}

#[test]
fn normalization_bares_only_the_requester() {
    let send = RelayRequest::Send {
        request_id: Some("r-1".to_string()),
        requester_session: "alice@team".to_string(),
        message: "hi".to_string(),
        targets: vec!["bob@team".to_string(), "carol@peer".to_string()],
        broadcast: false,
        quiet_window_ms: Some(5),
        on_behalf_of: Some("origin@RELAY".to_string()),
    };
    match normalize_request_identities(send, "team") {
        RelayRequest::Send { requester_session, targets, on_behalf_of, request_id, .. } => {
            assert_eq!(requester_session, "alice");
            assert_eq!(targets, vec!["bob@team".to_string(), "carol@peer".to_string()]);
            assert_eq!(on_behalf_of.as_deref(), Some("origin@RELAY"));
            assert_eq!(request_id.as_deref(), Some("r-1"));
        }
        other => panic!("unexpected request {other:?}"),
    }
    let raww = RelayRequest::Raww {
        request_id: None,
        requester_session: "alice@team".to_string(),
        target_session: "bob@team".to_string(),
        text: "ls".to_string(),
        no_enter: false,
        on_behalf_of: None,
    };
    match normalize_request_identities(raww, "team") {
        RelayRequest::Raww { requester_session, target_session, .. } => {
            assert_eq!(requester_session, "alice");
            assert_eq!(target_session, "bob@team");
        }
        other => panic!("unexpected request {other:?}"),
    }
}

#[test]
fn bundle_up_and_down_need_a_principal() {
    let refused = handle_request(RelayRequest::Up, "team").unwrap_err();
    assert_eq!(refused.code, "validation_missing_hello");
    assert_eq!(
        refused.message,
        "bundle up/down requests require stream-associated principal identity"
    );
    assert_eq!(handle_request(RelayRequest::Down, "team").unwrap_err().code, "validation_missing_hello");
    assert!(matches!(
        handle_request_with_principal(RelayRequest::Up, "team", Some("ops@team")),
        Ok(RequestRoute::Bundle(RelayRequest::Up))
    ));
    assert!(authorize_bundle_principal(Some("ops@team")).is_ok());
    assert_eq!(
        authorize_bundle_principal(None).unwrap_err().code,
        "validation_missing_hello"
    );
    let discover = RelayRequest::DiscoverPrincipals { relay: None, namespace: "team".to_string() };
    let refused = handle_request(discover, "team").unwrap_err();
    assert_eq!(refused.message, "relay-wide request reached the per-bundle dispatcher");
}

#[test]
fn permission_decisions_are_validated_read_and_mapped() {
    let b = bundle("alpha", &[("coder", SessionType::Tmux)]);
    assert!(validate_permission_decision_request(&b, None, None, "p-1", Some("allow")).is_ok());
    assert_eq!(
        validate_permission_decision_request(&b, Some("beta"), None, "p-1", None).unwrap_err().code,
        "validation_cross_bundle_unsupported"
    );
    let ui = "ui".to_string();
    assert_eq!(
        validate_permission_decision_request(&b, None, Some(&ui), "p-1", None).unwrap_err().message,
        "caller-supplied ui_session_id is not allowed"
    );
    assert_eq!(
        validate_permission_decision_request(&b, None, None, "  ", None).unwrap_err().message,
        "permission_request_id must be non-empty"
    );
    let allow = "allow".to_string();
    assert_eq!(permission_decision_kind("selected", Some(&allow)).unwrap(), PermissionDecisionKind::Selected);
    assert_eq!(permission_decision_kind("cancelled", None).unwrap(), PermissionDecisionKind::Cancelled);
    assert_eq!(
        permission_decision_kind("selected", None).unwrap_err().message,
        "selected outcome requires explicit option_id"
    );
    assert_eq!(
        permission_decision_kind("maybe", None).unwrap_err().message,
        "permission decision outcome must be selected or cancelled"
    );
    assert_eq!(choice_decision_kind("cancelled", None).unwrap(), ChoiceDecisionKind::Cancelled);
    assert_eq!(
        choice_decision_kind("cancelled", Some(&allow)).unwrap_err().message,
        "cancelled outcome must omit option_id"
    );
    assert!(validate_choice_decision_request("c-1", None).is_ok());
    assert_eq!(
        validate_choice_decision_request("c-1", Some(" ")).unwrap_err().message,
        "option_id must be non-empty when provided"
    );

    let mapped = map_permission_resolution_error(
        "validation_invalid_params: selected option_id 'x' is not present in pending permission options".to_string(),
        "p-1",
        Some("x".to_string()),
    );
    assert_eq!(mapped.code, "validation_invalid_params");
    assert_eq!(mapped.message, "selected option_id 'x' is not present in pending permission options");
    let resolved = map_choice_resolution_error("runtime_choices_request_already_resolved".to_string(), "c-1", None);
    assert_eq!(resolved.message, "choice request is already resolved");
    let other = map_permission_resolution_error("disk on fire".to_string(), "p-1", None);
    assert_eq!(other.code, "internal_unexpected_failure");
}

#[test]
fn a_permission_decision_resolves_against_the_queue() {
    let b = bundle("alpha", &[("coder", SessionType::Tmux)]);
    let mut queue = PermissionQueue::new();
    queue
        .enqueue_with(
            "p-1".to_string(),
            "m",
            "coder",
            "edit",
            PermissionDetails { document: "{}".to_string(), option_ids: vec!["allow".to_string()] },
            "t".to_string(),
            4,
        )
        .expect("room");
    let request = |id: &str, outcome: &str, option: Option<&str>| PermissionDecisionRequestContext {
        permission_request_id: id.to_string(),
        outcome: outcome.to_string(),
        option_id: option.map(|o| o.to_string()),
        bundle_name: None,
        ui_session_id: None,
    };
    let principal = || Some(RequestPrincipal { session_id: "ops@GLOBAL".to_string() });

    let no_hello = handle_permission_decision(&mut queue, &b, request("p-1", "selected", Some("allow")), None, Ok(()));
    assert_eq!(no_hello.unwrap_err().code, "validation_missing_hello");
    let denied = handle_permission_decision(
        &mut queue,
        &b,
        request("p-1", "selected", Some("allow")),
        principal(),
        Err(relay_error("authorization_forbidden", "no", None)),
    );
    assert_eq!(denied.unwrap_err().code, "authorization_forbidden");

    let listed = handle_permission_list(&queue, &b, None, principal(), Ok(())).expect("listed");
    assert_eq!(listed.pending_requests[0].target_session, "coder@alpha");

    let ok = handle_permission_decision(&mut queue, &b, request("p-1", "selected", Some("allow")), principal(), Ok(()))
        .expect("resolved");
    assert_eq!(ok.outcome, "selected");
    assert_eq!(ok.status, "resolved");
    let again = handle_permission_decision(&mut queue, &b, request("p-1", "cancelled", None), principal(), Ok(()));
    assert_eq!(again.unwrap_err().code, "runtime_permission_request_already_resolved");
    let cross = handle_permission_list(&queue, &b, Some("beta".to_string()), principal(), Ok(()));
    assert_eq!(cross.unwrap_err().code, "validation_cross_bundle_unsupported");
}

#[test]
fn configuration_failures_map_to_their_codes() {
    let unknown = map_config(ConfigurationError::UnknownBundle {
        bundle_name: "x".to_string(),
        path: "/c".to_string(),
    });
    assert_eq!(unknown.code, "validation_unknown_bundle");
    assert_eq!(unknown.details.expect("details").len(), 2);
    let unreadable = map_tui_config(ConfigurationError::UnreadableConfigurationLayer {
        path: "/c".to_string(),
        cause: "denied".to_string(),
    });
    assert_eq!(unreadable.code, "validation_unreadable_configuration_layer");
    let invalid = map_tui_config(ConfigurationError::InvalidConfiguration {
        path: "/c".to_string(),
        message: "bad".to_string(),
    });
    assert_eq!(invalid.message, "tui configuration is invalid");
}

#[test]
fn results_fan_out_and_wait_errors_read_as_outcomes() {
    let batch = vec![task("a", "m1"), task("b", "m2")];
    let mut template = result(SendOutcome::Failed, Some("x"));
    template.reason = Some("paste failed".to_string());
    let fanned = replicate_outcome_for_batch(&batch, &template);
    assert_eq!(fanned.len(), 2);
    assert_eq!(fanned[1].target_session, "b");
    assert_eq!(fanned[1].message_id, "m2");
    assert_eq!(fanned[1].reason.as_deref(), Some("paste failed"));

    let none = single_outcome_to_send_result(Vec::new(), "t".to_string(), "m".to_string());
    assert_eq!(none.outcome, SendOutcome::Failed);
    assert_eq!(none.reason.as_deref(), Some("ACP delivery produced no outcome"));

    let timeout = wait_error_to_send_result(
        &task("a", "m1"),
        DeliveryWaitError::Timeout { timeout_ms: 1500, readiness_mismatch: true, mismatch_reason: Some("no prompt".to_string()) },
    );
    assert_eq!(timeout.outcome, SendOutcome::Timeout);
    assert_eq!(
        timeout.reason.as_deref(),
        Some("prompt readiness did not match before timeout after 1500ms: no prompt")
    );
    let quiet = wait_error_to_send_result(
        &task("a", "m1"),
        DeliveryWaitError::Timeout { timeout_ms: 30, readiness_mismatch: false, mismatch_reason: None },
    );
    assert_eq!(quiet.reason.as_deref(), Some("quiescence wait timed out after 30ms"));
    let dropped = wait_error_to_send_result(&task("a", "m1"), DeliveryWaitError::Shutdown);
    assert_eq!(dropped.outcome, SendOutcome::DroppedOnShutdown);
    assert_eq!(dropped.reason_code.as_deref(), Some("dropped_on_shutdown"));

    let unreachable = target_unreachable_result(&task("a", "m1"), 60_000);
    assert_eq!(unreachable.outcome, SendOutcome::NotSubmitted);
    match &unreachable.details.expect("details")[0].value {
        DetailValue::Number(ms) => assert_eq!(*ms, 60_000),
        other => panic!("unexpected detail {other:?}"),
    }

    assert_eq!(QuiescenceOptions::for_async(None).quiet_window_ms, 750);
    assert_eq!(QuiescenceOptions::for_async(Some(0)).quiet_window_ms, 750);
    assert_eq!(QuiescenceOptions::for_async(Some(200)).quiet_window_ms, 200);
}

#[test]
fn envelopes_carry_each_prompt_or_the_raw_input() {
    let envelopes = build_tmux_envelopes(&task("a", "m1"), vec!["one".to_string(), "two".to_string()]);
    assert_eq!(envelopes.len(), 2);
    assert!(envelopes.iter().all(|e| e.append_enter));
    assert_eq!(envelopes[1].rendered, "two");
    let mut raw = task("a", "m1");
    raw.payload_mode = DeliveryPayloadMode::RawInput;
    let envelopes = build_tmux_envelopes(&raw, vec!["ignored".to_string()]);
    assert_eq!(envelopes.len(), 1);
    assert_eq!(envelopes[0].rendered, "hello");
    assert!(!envelopes[0].append_enter);
    match deliver_acp_combined(&task("a", "m1"), Vec::new()) {
        AcpDelivery::NoPrompt(r) => assert_eq!(r.reason.as_deref(), Some("ACP delivery received no prompt batch")),
        other => panic!("unexpected {other:?}"),
    }
}

#[test]
fn senders_and_look_targets_resolve() {
    let b = bundle("alpha", &[("coder", SessionType::Tmux), ("agent", SessionType::Acp)]);
    let ui = vec![UiSession { id: "ops@GLOBAL".to_string(), display_name: Some("Ops".to_string()) }];
    let coder = resolve_sender_identity(&b, &ui, "coder", "requester_session").expect("member");
    assert_eq!(coder.display_name.as_deref(), Some("coder name"));
    let ops = resolve_sender_identity(&b, &ui, "ops@GLOBAL", "requester_session").expect("ui");
    assert_eq!(ops.display_name.as_deref(), Some("Ops"));
    let unknown = resolve_sender_identity(&b, &ui, "ghost", "requester_session").unwrap_err();
    assert_eq!(unknown.code, "validation_unknown_sender");

    assert_eq!(resolve_look_target_bundle("alpha", "coder").unwrap(), ("alpha".to_string(), "coder".to_string()));
    assert_eq!(resolve_look_target_bundle("alpha", "x@beta").unwrap(), ("beta".to_string(), "x".to_string()));
    assert_eq!(
        resolve_look_target_bundle("alpha", "ops@GLOBAL").unwrap_err().code,
        "validation_unsupported_namespace"
    );
    assert!(validate_look_lines(Some(1000)).is_ok());
    assert_eq!(validate_look_lines(Some(0)).unwrap_err().code, "validation_invalid_lines");
    assert_eq!(look_window(&b.members[0], None, None).unwrap(), LookWindow::Lines(120));
    assert_eq!(
        look_window(&b.members[1], None, Some(3)).unwrap(),
        LookWindow::AcpEntries { entries: 50, offset: 3 }
    );
    assert_eq!(look_window(&b.members[0], None, Some(3)).unwrap_err().code, "validation_offset_unsupported");
}

#[test]
fn raww_checks_its_target_and_answers_its_dispatch() {
    let b = bundle("alpha", &[("coder", SessionType::Tmux)]);
    let ui = vec![UiSession { id: "ops@GLOBAL".to_string(), display_name: None }];
    assert!(validate_raww_request("coder", "text").is_ok());
    assert_eq!(validate_raww_request(" ", "text").unwrap_err().message, "target_session must be non-empty");
    let big = "é".repeat(16_385);
    let too_big = validate_raww_request("coder", big.as_str()).unwrap_err();
    assert_eq!(too_big.message, "raww text exceeds maximum size of 32 KiB");
    assert_eq!(raww_target(&b, &ui, "coder").unwrap(), 0);
    assert_eq!(raww_target(&b, &ui, "ops@GLOBAL").unwrap_err().message, "raww target class is not supported");
    assert_eq!(raww_target(&b, &ui, "ghost").unwrap_err().code, "validation_unknown_target");

    let accepted = raww_dispatch_outcome(result(SendOutcome::Delivered, None), RawwTransport::Acp, "coder@alpha".to_string())
        .expect("accepted");
    assert_eq!(accepted.delivery_phase, "accepted_in_progress");
    let unavailable = raww_dispatch_outcome(
        result(SendOutcome::Failed, Some("runtime_acp_worker_unavailable")),
        RawwTransport::Acp,
        "coder@alpha".to_string(),
    );
    assert_eq!(unavailable.unwrap_err().code, "runtime_target_unavailable");
    let failed = raww_dispatch_outcome(result(SendOutcome::Failed, None), RawwTransport::Tmux, "coder@alpha".to_string());
    assert_eq!(failed.unwrap_err().code, "runtime_transport_write_failed");
}

#[test]
fn send_targets_group_by_bundle_in_the_order_named() {
    let sender = bundle("alpha", &[("coder", SessionType::Tmux), ("tester", SessionType::Acp)]);
    let catalog = vec![
        CatalogBundle { bundle_name: "beta".to_string(), configuration: Ok(bundle("beta", &[("x", SessionType::Tmux)])) },
        CatalogBundle { bundle_name: "broken".to_string(), configuration: Err(relay_error("internal_unexpected_failure", "bad", None)) },
    ];
    let ui = vec![UiSession { id: "ops@GLOBAL".to_string(), display_name: None }];
    let targets = vec!["x@beta".to_string(), " coder ".to_string(), "ops@GLOBAL".to_string()];
    let groups = resolve_target_groups(&sender, &ui, &catalog, &targets).expect("resolved");
    assert_eq!(groups.len(), 2);
    assert_eq!(groups[0].bundle_name, "alpha");
    let alpha: Vec<(&str, bool)> = groups[0].targets.iter().map(|t| (t.session_id.as_str(), t.is_ui)).collect();
    assert_eq!(alpha, vec![("coder", false), ("ops@GLOBAL", true)]);
    assert_eq!(groups[1].bundle_name, "beta");

    let unknown = resolve_target_groups(&sender, &ui, &catalog, &vec!["ghost".to_string(), "y@beta".to_string(), "z@nowhere".to_string()])
        .unwrap_err();
    assert_eq!(unknown.code, "validation_unknown_target");
    match &unknown.details.expect("details")[0].value {
        DetailValue::Texts(ids) => assert_eq!(ids, &vec!["ghost".to_string(), "y@beta".to_string(), "z@nowhere".to_string()]),
        other => panic!("unexpected detail {other:?}"),
    }
    let reserved = resolve_target_groups(&sender, &ui, &catalog, &vec!["p@RELAY".to_string()]).unwrap_err();
    assert_eq!(reserved.code, "validation_unsupported_namespace");
    let broken = resolve_target_groups(&sender, &ui, &catalog, &vec!["q@broken".to_string()]).unwrap_err();
    assert_eq!(broken.message, "bad");
    let only_peer = resolve_target_groups(&sender, &ui, &catalog, &vec!["x@beta".to_string()]).expect("resolved");
    assert_eq!(only_peer.len(), 1);
    assert_eq!(only_peer[0].bundle_name, "beta");
}

#[test]
fn sends_are_validated_and_cross_relay_results_labelled() {
    assert!(validate_send_request("hi", 1, false).is_ok());
    assert!(validate_send_request("hi", 0, true).is_ok());
    assert_eq!(validate_send_request(" ", 1, false).unwrap_err().code, "validation_invalid_arguments");
    assert_eq!(validate_send_request("hi", 0, false).unwrap_err().code, "validation_empty_targets");
    assert_eq!(validate_send_request("hi", 2, true).unwrap_err().code, "validation_conflicting_targets");
    let home = bundle("alpha", &[("coder", SessionType::Tmux), ("tester", SessionType::Acp)]);
    assert_eq!(broadcast_targets(Some(&home), "coder").unwrap(), vec!["tester".to_string()]);
    assert_eq!(broadcast_targets(None, "coder").unwrap_err().message, "broadcast requires a bundle-bound sender");

    let label = cross_relay_target_label("x", "beta", "east");
    assert_eq!(label, "x@beta!east");
    let unavailable = cross_relay_result_from_error(label.clone(), relay_error("runtime_peer_unavailable", "down", None)).unwrap();
    assert_eq!(unavailable.outcome, SendOutcome::PeerUnavailable);
    assert!(!unavailable.message_id.is_empty());
    let refused = cross_relay_result_from_error(label.clone(), relay_error("authorization_forbidden", "no", None)).unwrap();
    assert_eq!(refused.outcome, SendOutcome::Failed);
    let failed = failed_cross_relay_result(label.clone(), "internal_peer_send_failed", "peer broke", None)
        .unwrap();
    assert_eq!(failed.outcome, SendOutcome::Failed);
    assert_eq!(failed.reason_code.as_deref(), Some("internal_peer_send_failed"));
    assert_eq!(failed.message_id.len(), 36);
    assert_ne!(failed.message_id, unavailable.message_id);

    let mut peer = result(SendOutcome::Queued, None);
    peer.target_session = "x@beta".to_string();
    let relabelled = forwarded_send_result(label.clone(), Some(ForwardReply::Send(vec![peer])), "m".to_string());
    assert_eq!(relabelled.target_session, "x@beta!east");
    assert_eq!(relabelled.outcome, SendOutcome::Queued);
    let empty = forwarded_send_result(label.clone(), Some(ForwardReply::Send(Vec::new())), "m".to_string());
    assert_eq!(empty.reason_code.as_deref(), Some("internal_peer_empty_results"));
    let no_peer = forwarded_send_result(label.clone(), None, "m".to_string());
    assert_eq!(no_peer.reason_code.as_deref(), Some("validation_unknown_peer"));
    let odd = forwarded_send_result(label, Some(ForwardReply::Unexpected), "m".to_string());
    assert_eq!(odd.reason_code.as_deref(), Some("internal_peer_unexpected_response"));
}

#[test]
fn a_fence_concludes_by_the_window_that_saw_cessation() {
    assert_eq!(
        fence_step(FenceWindow::AfterStopRequest, true),
        FenceStep::Conclude(FenceOutcome { verdict: FenceVerdict::Positive, resolution: FenceResolution::Cooperative })
    );
    assert_eq!(fence_step(FenceWindow::AfterStopRequest, false), FenceStep::Terminate);
    assert_eq!(
        fence_step(FenceWindow::AfterTermination, true),
        FenceStep::Conclude(FenceOutcome { verdict: FenceVerdict::Positive, resolution: FenceResolution::Forced })
    );
    assert_eq!(
        fence_step(FenceWindow::AfterTermination, false),
        FenceStep::Conclude(FenceOutcome { verdict: FenceVerdict::Negative, resolution: FenceResolution::Unobserved })
    );
    assert_eq!(observation_deadline(u64::MAX - 1, 10), u64::MAX);
    assert_eq!(observation_step(true, 500, 100), ObservationStep::Ceased);
    assert_eq!(observation_step(false, 100, 100), ObservationStep::Expired);
    assert_eq!(observation_step(false, 95, 100), ObservationStep::Sleep(5));
    assert_eq!(observation_step(false, 0, 100), ObservationStep::Sleep(10));
}

#[test]
fn relay_errors_render_their_details() {
    let e: RelayError = relay_error("c", "m", None);
    assert_eq!(e.code, "c");
    assert!(e.details.is_none());
}
