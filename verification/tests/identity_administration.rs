use agentmux::errors::{relay_error, DetailValue, RelayError};
use agentmux::identity::PrincipalType;
use agentmux::identity_admin::{
    credential_answer, stage_registration,
    change_scope_outcome, change_scope_plan, classify_target_principal, credential_rollback_failed,
    credential_step, drop_peer_outcome, drop_peer_plan, handle_identity_introspect,
    identity_revoked_error, is_credential_uncertain, is_durability_uncertain, registration_check,
    revokes_connections, rotation_target, scope_vocabulary_diagnostics, with_credential,
    CredentialAction, CredentialEvent, CredentialPhase, CredentialWrite,
};
use agentmux::install::{classify_slot, install_after_gate, install_gate, install_precheck, SlotState};
use agentmux::principals::{
    hash_token_sha256, IdentityIntrospectRights, PrincipalRecord, PrincipalStore,
};

fn record(id: &str, kind: PrincipalType, token: &str, expires_at: Option<&str>) -> PrincipalRecord {
    PrincipalRecord {
        principal_id: id.to_string(),
        principal_type: kind,
        credential_hash: hash_token_sha256(token),
        scope: Some("alpha".to_string()),
        expires_at: expires_at.map(|s| s.to_string()),
        metadata: vec![("note".to_string(), "kept".to_string())],
    }
}

fn store() -> PrincipalStore {
    let mut store = PrincipalStore::new();
    store.insert(record("coder@alpha", PrincipalType::Session, "t1", None));
    store.insert(record("peer@RELAY", PrincipalType::Relay, "t2", None));
    store.insert(record("old@alpha", PrincipalType::Session, "t3", Some("2000-01-01T00:00:00Z")));
    store.insert(record("app@EXTERNAL", PrincipalType::Application, "t4", None));
    store
}

/// 2024-01-01T00:00:00Z, in nanoseconds since the epoch.
const NOW: i128 = 1_704_067_200_000_000_000;

fn uncertain() -> RelayError {
    relay_error("internal_store_durability_uncertain", "sync failed", None)
}

fn io_failure() -> RelayError {
    relay_error("internal_store_write", "rename failed", None)
}

#[test]
fn a_registration_names_a_qualified_principal() {
    assert_eq!(classify_target_principal("peer@RELAY").unwrap(), PrincipalType::Relay);
    assert_eq!(
        classify_target_principal("bare").unwrap_err().code,
        "validation_invalid_principal_id"
    );
}

#[test]
fn a_policy_tier_spelled_scope_draws_an_advisory() {
    let notes = scope_vocabulary_diagnostics(Some("all"));
    assert_eq!(notes.len(), 1);
    assert_eq!(notes[0].code, "advisory_scope_resembles_policy_tier");
    assert_eq!(
        notes[0].message,
        "ingress scope 'all' is a policy-tier value, not an ingress scope; an ingress scope names a session@bundle principal or a bare namespace, so this matches a namespace literally named 'all' and nothing else"
    );
    assert!(scope_vocabulary_diagnostics(Some("alpha")).is_empty());
    assert!(scope_vocabulary_diagnostics(None).is_empty());
}

#[test]
fn introspection_needs_rights_covering_the_target() {
    let rights = IdentityIntrospectRights { scope: Some("alpha".to_string()) };
    let loaded: Result<PrincipalStore, RelayError> = Ok(store());
    let found = handle_identity_introspect(&loaded, Some(&rights), "coder@alpha", NOW).unwrap();
    assert_eq!(found.principal_id, "coder@alpha");
    assert!(found.verified);
    let expired = handle_identity_introspect(&loaded, Some(&rights), "old@alpha", NOW).unwrap();
    assert!(!expired.verified);
    assert_eq!(
        handle_identity_introspect(&loaded, Some(&rights), "coder", NOW).unwrap_err().code,
        "validation_invalid_params"
    );
    assert_eq!(
        handle_identity_introspect(&loaded, None, "coder@alpha", NOW).unwrap_err().code,
        "authorization_forbidden"
    );
    assert_eq!(
        handle_identity_introspect(&loaded, Some(&rights), "x@beta", NOW).unwrap_err().code,
        "authorization_forbidden"
    );
    assert_eq!(
        handle_identity_introspect(&loaded, Some(&rights), "ghost@alpha", NOW).unwrap_err().code,
        "validation_unknown_principal"
    );
}

#[test]
fn a_registration_refuses_a_principal_already_registered() {
    let refused = registration_check(Ok(store()), "coder@alpha", NOW).unwrap_err();
    assert_eq!(refused.code, "validation_principal_exists");
    // An expired record is pruned first, so its id can be registered again.
    let pruned = registration_check(Ok(store()), "old@alpha", NOW).unwrap();
    assert!(pruned.find_by_principal_id("old@alpha").is_none());
    assert_eq!(pruned.records().len(), 3);
}

#[test]
fn a_rotation_keeps_everything_but_the_credential() {
    let (_, existing) = rotation_target(Ok(store()), "peer@RELAY", NOW).unwrap();
    let rotated = with_credential(&existing, hash_token_sha256("fresh"));
    assert_eq!(rotated.principal_id, "peer@RELAY");
    assert_eq!(rotated.principal_type, PrincipalType::Relay);
    assert_eq!(rotated.scope.as_deref(), Some("alpha"));
    assert_eq!(rotated.metadata, vec![("note".to_string(), "kept".to_string())]);
    assert_eq!(rotated.credential_hash, hash_token_sha256("fresh"));
    assert_eq!(
        rotation_target(Ok(store()), "ghost@alpha", NOW).unwrap_err().code,
        "validation_unknown_principal"
    );
}

#[test]
fn a_principal_cannot_drop_itself_and_a_drop_revokes_once_published() {
    let own = drop_peer_plan(Ok(store()), "peer@RELAY", "peer@RELAY", Ok(()), NOW).unwrap_err();
    assert_eq!(own.code, "validation_self_drop_forbidden");
    let denied = drop_peer_plan(
        Ok(store()),
        "app@EXTERNAL",
        "peer@RELAY",
        Err(relay_error("authorization_forbidden", "no", None)),
        NOW,
    )
    .unwrap_err();
    assert_eq!(denied.code, "authorization_forbidden");
    let (after, removed) =
        drop_peer_plan(Ok(store()), "app@EXTERNAL", "peer@RELAY", Ok(()), NOW).unwrap();
    assert_eq!(removed.principal_id, "peer@RELAY");
    assert!(after.find_by_principal_id("peer@RELAY").is_none());

    let kept = drop_peer_outcome(Err(io_failure()), "peer@RELAY", PrincipalType::Relay, None);
    assert!(!kept.revoke);
    assert_eq!(kept.answer.unwrap_err().code, "internal_store_write");
    let unsure = drop_peer_outcome(Err(uncertain()), "peer@RELAY", PrincipalType::Relay, None);
    assert!(unsure.revoke);
    assert_eq!(unsure.answer.unwrap_err().code, "internal_store_durability_uncertain");
    let done = drop_peer_outcome(
        Ok(()),
        "coder@alpha",
        PrincipalType::Session,
        Some("/state/alpha/coder/identity.psk".to_string()),
    );
    assert!(done.revoke);
    let answer = done.answer.unwrap();
    assert_eq!(answer.credential_path.as_deref(), Some("/state/alpha/coder/identity.psk"));
    let peer = drop_peer_outcome(Ok(()), "peer@RELAY", PrincipalType::Relay, Some("x".to_string()));
    assert!(peer.answer.unwrap().credential_path.is_none());
}

#[test]
fn a_rescoping_applies_only_to_registered_relay_principals() {
    let (after, previous) =
        change_scope_plan(Ok(store()), "peer@RELAY", Ok(()), Ok(Some("beta".to_string()))).unwrap();
    assert_eq!(previous.as_deref(), Some("alpha"));
    let updated = after.find_by_principal_id("peer@RELAY").unwrap();
    assert_eq!(updated.scope.as_deref(), Some("beta"));
    assert_eq!(updated.credential_hash, hash_token_sha256("t2"));
    assert_eq!(
        change_scope_plan(Ok(store()), "coder@alpha", Ok(()), Ok(None)).unwrap_err().code,
        "validation_invalid_principal_id"
    );
    assert_eq!(
        change_scope_plan(Ok(store()), "ghost@RELAY", Ok(()), Ok(None)).unwrap_err().code,
        "validation_unknown_principal"
    );
    let answer = change_scope_outcome(Ok(()), "peer@RELAY", None).unwrap();
    assert_eq!(answer.scope, "");
    let unsure = change_scope_outcome(Err(uncertain()), "peer@RELAY", Some("beta".to_string()))
        .unwrap_err();
    assert_eq!(unsure.code, "internal_store_durability_uncertain");
    assert!(unsure
        .details
        .unwrap()
        .iter()
        .any(|d| d.key == "scope" && matches!(&d.value, DetailValue::Text(v) if v == "beta")));
}

#[test]
fn a_rotation_publishes_then_renames_then_revokes() {
    let first = credential_step(
        CredentialWrite::Rotate,
        true,
        CredentialPhase::Publishing,
        CredentialEvent::Persisted(Ok(())),
    );
    assert!(matches!(first.action, CredentialAction::CommitStaged));
    assert!(!first.revoke);
    let second = credential_step(
        CredentialWrite::Rotate,
        true,
        first.phase,
        CredentialEvent::Committed(Ok("/peers/a.psk".to_string())),
    );
    assert!(matches!(second.action, CredentialAction::Succeed(Some(ref p)) if p == "/peers/a.psk"));
    assert!(second.revoke);
    assert!(matches!(second.phase, CredentialPhase::Done));
}

#[test]
fn a_failed_rename_rolls_the_store_back() {
    let step = credential_step(
        CredentialWrite::Register,
        true,
        CredentialPhase::Committing,
        CredentialEvent::Committed(Err(relay_error("internal_credential_write", "no", None))),
    );
    assert!(matches!(step.action, CredentialAction::RestoreAndPersist));
    let rolled = credential_step(
        CredentialWrite::Register,
        true,
        step.phase,
        CredentialEvent::Persisted(Err(io_failure())),
    );
    match rolled.action {
        CredentialAction::Fail(error) => {
            assert_eq!(error.code, "internal_credential_rollback_failed");
        },
        other => panic!("unexpected {other:?}"),
    }
    assert!(!rolled.revoke);
}

#[test]
fn an_uncertain_publication_is_compensated() {
    let step = credential_step(
        CredentialWrite::Register,
        false,
        CredentialPhase::Publishing,
        CredentialEvent::Persisted(Err(uncertain())),
    );
    assert!(matches!(step.action, CredentialAction::RestoreAndPersist));
    let restored = credential_step(
        CredentialWrite::Register,
        false,
        step.phase,
        CredentialEvent::Persisted(Ok(())),
    );
    match restored.action {
        CredentialAction::AbortAndFail(error) => {
            assert_eq!(error.code, "internal_store_durability_uncertain")
        },
        other => panic!("unexpected {other:?}"),
    }
    let failed_compensation = credential_step(
        CredentialWrite::Rotate,
        false,
        CredentialPhase::Compensating(uncertain()),
        CredentialEvent::Persisted(Err(io_failure())),
    );
    assert!(matches!(failed_compensation.action, CredentialAction::PublishAndFail(_)));
    assert!(failed_compensation.revoke);
}

#[test]
fn durability_codes_are_recognised() {
    assert!(is_durability_uncertain(&uncertain()));
    assert!(!is_durability_uncertain(&io_failure()));
    assert!(is_credential_uncertain(&relay_error(
        "internal_credential_durability_uncertain",
        "x",
        None
    )));
    let double = credential_rollback_failed(&io_failure(), &uncertain());
    assert_eq!(double.code, "internal_credential_rollback_failed");
    assert_eq!(identity_revoked_error("a@b", true).code, "runtime_identity_revoked");
    assert_eq!(
        identity_revoked_error("a@b", false).message,
        "identity was dropped; the credential no longer authenticates"
    );
    assert!(revokes_connections("peer@RELAY", "app@EXTERNAL"));
    assert!(!revokes_connections("peer@RELAY", "peer@RELAY"));
}

#[test]
fn a_peer_credential_install_needs_the_control_its_slot_calls_for() {
    assert_eq!(install_precheck("a", "").unwrap_err().code, "validation_invalid_params");
    assert!(install_precheck("a", "secret").is_ok());
    let denial = || relay_error("authorization_forbidden", "denied", None);
    assert_eq!(install_gate(Some(denial()), Some(denial())).unwrap_err().code, "authorization_forbidden");
    assert!(install_gate(Some(denial()), None).is_ok());
    assert_eq!(classify_slot(&None, "s"), SlotState::Absent);
    assert_eq!(classify_slot(&Some(b"s".to_vec()), "s"), SlotState::Identical);
    assert_eq!(classify_slot(&Some(b"t".to_vec()), "s"), SlotState::Different);
    // Identical content is accepted whichever control was denied.
    assert_eq!(
        install_after_gate(Ok(store()), "peer", Ok(Some(b"s".to_vec())), "s", Some(denial()), None)
            .unwrap(),
        SlotState::Identical
    );
    assert_eq!(
        install_after_gate(Ok(store()), "peer", Ok(None), "s", Some(denial()), None)
            .unwrap_err()
            .code,
        "authorization_forbidden"
    );
    assert_eq!(
        install_after_gate(Ok(store()), "peer", Ok(Some(b"t".to_vec())), "s", Some(denial()), None)
            .unwrap(),
        SlotState::Different
    );
    assert_eq!(
        install_after_gate(Ok(store()), "ghost", Ok(None), "s", None, None).unwrap_err().code,
        "validation_unknown_principal"
    );
}

#[test]
fn a_registration_whose_staging_failed_leaves_the_store_as_it_was() {
    let mut s = store();
    let before: Vec<String> = s.records().iter().map(|r| r.principal_id.clone()).collect();
    let failed = stage_registration(
        &mut s,
        record("new@RELAY", PrincipalType::Relay, "fresh", None),
        Err(relay_error("internal_credential_write", "failed to open credential temp file", None)),
    )
    .unwrap_err();
    assert_eq!(failed.code, "internal_credential_write");
    let after: Vec<String> = s.records().iter().map(|r| r.principal_id.clone()).collect();
    assert_eq!(after, before);
    assert!(stage_registration(&mut s, record("new@RELAY", PrincipalType::Relay, "fresh", None), Ok(()))
        .is_ok());
    assert_eq!(s.records().len(), before.len() + 1);
    assert_eq!(s.records().last().unwrap().principal_id, "new@RELAY");
}

#[test]
fn a_credential_goes_back_only_when_it_was_not_written() {
    let returned = credential_answer("edge@RELAY".to_string(), "secret".to_string(), None);
    assert_eq!(returned.principal_id, "edge@RELAY");
    assert_eq!(returned.psk.as_deref(), Some("secret"));
    assert!(returned.written_path.is_none());
    let written = credential_answer(
        "edge@RELAY".to_string(),
        "secret".to_string(),
        Some("/state/peer.psk".to_string()),
    );
    assert!(written.psk.is_none());
    assert_eq!(written.written_path.as_deref(), Some("/state/peer.psk"));
}
