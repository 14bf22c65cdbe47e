use agentmux::delivery::batch::{
    form_batch, settle_batch, BatchFormation, BatchSettlement, HandoverDimensions, HandoverWindow,
};
use agentmux::delivery::gate::{activity_advanced, decide_gate, decide_gate_at, TargetGate, TransportHealth};
use agentmux::delivery::guard::{
    resolve_from_evidence, stop_resolution, GuardTrigger, IdentityMinter, SendOutcome, StopCause,
    StopResolution, SubmissionEvidence,
};
use agentmux::clock::{now_rfc3339, stamp_or_epoch};
use std::time::{Duration, Instant};

#[test]
fn a_window_stops_at_whichever_component_binds_first() {
    let dimensions = HandoverDimensions {
        envelopes_max: 3,
        canonical_bytes_max: 100,
    };
    let window = || HandoverWindow {
        dimensions: Some(dimensions),
        envelopes: 0,
        bytes: 0,
    };

    // The floor: an empty window admits anything.
    assert!(window().admits(9_999));
    assert!(window().has_room());

    // The count binds.
    let mut counting = window();
    for _ in 0..3 {
        assert!(counting.has_room());
        counting.record(1);
    }
    assert!(!counting.has_room(), "the envelope cap closed the window");
    assert!(!counting.admits(1));

    // The bytes bind, well under the envelope cap.
    let mut weighing = window();
    weighing.record(60);
    assert!(weighing.has_room(), "one member of three, 60 of 100 bytes");
    assert!(!weighing.admits(60), "60 + 60 overruns the byte ceiling");
    assert!(weighing.admits(40), "but exactly filling it is allowed");

    weighing.record(40);
    assert!(!weighing.has_room(), "100 of 100 bytes leaves no room");

    // Saturating, not wrapping.
    let mut overflowing = window();
    overflowing.record(u64::MAX);
    assert!(!overflowing.admits(101));

    // Closing restores a whole handover's room.
    let mut reopening = window();
    reopening.record(100);
    assert!(!reopening.has_room());
    reopening.close();
    assert!(reopening.has_room());
    assert!(reopening.admits(100));
}

#[test]
fn only_a_real_advance_suppresses_a_handover_and_only_ever_withholds_it() {
    let mut last = None;
    assert!(
        !activity_advanced(1_700_000_000, &mut last),
        "the first observation has nothing to have advanced against"
    );
    assert!(
        activity_advanced(1_700_000_001, &mut last),
        "a later marker is positive evidence the target wrote something"
    );
    assert!(
        !activity_advanced(1_700_000_001, &mut last),
        "an unchanged marker is not evidence of anything, so it holds nothing back"
    );

    assert!(
        !activity_advanced(0, &mut last),
        "an unreadable marker is absence, and absence suppresses nothing"
    );
    assert!(
        !activity_advanced(1_700_000_001, &mut last),
        "recovering with an unchanged marker is not an advance"
    );

    let mut absent = None;
    for _ in 0..4 {
        assert!(
            !activity_advanced(0, &mut absent),
            "a constant zero can never advance"
        );
    }

    let dwell_ms = Duration::from_secs(60).as_millis() as u64;

    assert_eq!(
        decide_gate(TransportHealth::Healthy, dwell_ms, true, true),
        TargetGate::Hold,
        "an activity advance outranks a matching prompt template"
    );
    assert_eq!(
        decide_gate(TransportHealth::Healthy, dwell_ms, false, true),
        TargetGate::Open
    );
    assert_eq!(
        decide_gate(TransportHealth::Healthy, dwell_ms, false, false),
        TargetGate::Hold
    );

    let stale = TransportHealth::Unreachable {
        since: Instant::now() - Duration::from_secs(120),
    };
    assert_eq!(
        decide_gate(stale, dwell_ms, true, true),
        TargetGate::Unreachable,
        "activity must not outrank a target that is owed resolution"
    );
}

#[test]
fn the_evidence_order_prefers_a_record_then_proof_then_honesty() {
    let mut minter = IdentityMinter::new();
    assert_eq!(
        resolve_from_evidence(Some(SubmissionEvidence::Submitted), Some(minter.mint_unit())),
        SubmissionEvidence::Submitted,
    );
    assert_eq!(
        resolve_from_evidence(Some(SubmissionEvidence::NotSubmitted), Some(minter.mint_unit())),
        SubmissionEvidence::NotSubmitted,
    );
    assert_eq!(
        resolve_from_evidence(None, None),
        SubmissionEvidence::NotSubmitted,
    );
    assert_eq!(
        resolve_from_evidence(None, Some(minter.mint_unit())),
        SubmissionEvidence::SubmissionUnknown,
    );
}

#[test]
fn a_window_for_a_transport_without_dimensions_is_unbounded() {
    let mut window = HandoverWindow::for_transport(None);
    for _ in 0..10 {
        assert!(window.has_room());
        assert!(window.admits(u64::MAX));
        window.record(u64::MAX);
    }
}

#[test]
fn an_unreachable_target_within_its_dwell_is_held() {
    let recent = TransportHealth::Unreachable { since: Instant::now() };
    assert_eq!(decide_gate(recent, 60_000, false, true), TargetGate::Hold);
    assert_eq!(decide_gate_at(false, 59_999, 60_000, false, true), TargetGate::Hold);
    assert_eq!(decide_gate_at(false, 60_000, 60_000, false, true), TargetGate::Unreachable);
}

#[test]
fn minted_identities_strictly_increase() {
    let mut minter = IdentityMinter::new();
    let a = minter.mint_batch();
    let b = minter.mint_batch();
    assert_eq!(a.value(), 1);
    assert_eq!(b.value(), 2);
    let x = minter.mint_attempt();
    let y = minter.mint_attempt();
    assert!(x.value() < y.value());
    let u = minter.mint_unit();
    let v = minter.mint_unit();
    assert!(u.value < v.value);
}

#[test]
fn evidence_maps_to_outcomes_and_triggers_name_their_cause() {
    assert_eq!(SubmissionEvidence::Submitted.outcome(), SendOutcome::Delivered);
    assert_eq!(SubmissionEvidence::NotSubmitted.outcome(), SendOutcome::NotSubmitted);
    assert_eq!(SubmissionEvidence::SubmissionUnknown.outcome(), SendOutcome::SubmissionUnknown);
    assert_eq!(
        GuardTrigger::GracefulShutdown.reason(),
        "relay shut down before this member resolved"
    );
}

#[test]
fn a_batch_takes_the_window_only_once_authorized() {
    let dims = Some(HandoverDimensions { envelopes_max: 2, canonical_bytes_max: 100 });
    let mut window = HandoverWindow::for_transport(dims);
    window.record(60);
    let proposed = match form_batch(&window, 30) {
        BatchFormation::Fixed(proposed) => proposed,
        BatchFormation::NoRoom => panic!("30 more bytes fit"),
    };
    assert_eq!((proposed.envelopes, proposed.bytes), (2, 90));
    assert_eq!((window.envelopes, window.bytes), (1, 60), "formation leaves the real window");
    assert!(matches!(form_batch(&window, 41), BatchFormation::NoRoom));

    let refused = settle_batch(&mut window, proposed, true, false);
    match refused {
        BatchSettlement::Refuse { code, reason } => {
            assert_eq!(code, "delivery_batch_not_authorized");
            assert_eq!(
                reason,
                "the relay could not authorize this batch, so no member of it was submitted"
            );
        }
        BatchSettlement::Submit => panic!("an unauthorized batch is not submitted"),
    }
    assert_eq!((window.envelopes, window.bytes), (1, 60));

    assert!(matches!(settle_batch(&mut window, proposed, true, true), BatchSettlement::Submit));
    assert_eq!((window.envelopes, window.bytes), (2, 90));

    let mut receipts = HandoverWindow::for_transport(dims);
    let receipt_batch = match form_batch(&receipts, 10) {
        BatchFormation::Fixed(p) => p,
        BatchFormation::NoRoom => panic!("an empty window admits anything"),
    };
    assert!(matches!(
        settle_batch(&mut receipts, receipt_batch, false, false),
        BatchSettlement::Submit
    ), "relay-originated work needs no authorization");
    assert_eq!(receipts.envelopes, 1);
}

#[test]
fn only_an_undeclared_entry_is_dropped_on_shutdown() {
    assert_eq!(stop_resolution(false, StopCause::Shutdown), StopResolution::DroppedOnShutdown);
    assert_eq!(
        stop_resolution(true, StopCause::Shutdown),
        StopResolution::ByEvidence(GuardTrigger::GracefulShutdown)
    );
    assert_eq!(
        stop_resolution(false, StopCause::BundleStop),
        StopResolution::ByEvidence(GuardTrigger::BundleStop)
    );
    assert_eq!(
        stop_resolution(true, StopCause::BundleStop),
        StopResolution::ByEvidence(GuardTrigger::BundleStop)
    );
    assert_eq!(StopCause::Shutdown.fence_trigger(), "graceful_shutdown");
    assert_eq!(StopCause::BundleStop.fence_trigger(), "bundle_stop");
}

#[test]
fn an_unformattable_time_is_stamped_with_the_epoch() {
    assert_eq!(stamp_or_epoch(None), "1970-01-01T00:00:00Z");
    assert_eq!(stamp_or_epoch(Some("2024-01-01T00:00:00Z".to_string())), "2024-01-01T00:00:00Z");
    let now = now_rfc3339();
    assert!(now.len() >= 20 && now.contains('T'));
}
