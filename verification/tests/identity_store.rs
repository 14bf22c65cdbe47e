use agentmux::identity::{
    bare_session_id, canonical_session_id, classify_principal_id, is_valid_session_component,
    scope_permits, split_principal_id, PrincipalType,
};
use agentmux::principals::{
    generate_psk, hash_token_sha256, verify_hello_credential, PrincipalRecord, PrincipalStore,
};

fn record(id: &str, kind: PrincipalType, token: &str, expires_at: Option<&str>) -> PrincipalRecord {
    PrincipalRecord {
        principal_id: id.to_string(),
        principal_type: kind,
        credential_hash: hash_token_sha256(token),
        scope: Some("alpha".to_string()),
        expires_at: expires_at.map(|s| s.to_string()),
        metadata: Vec::new(),
    }
}

#[test]
fn canonical_ids_qualify_bare_sessions_and_keep_global_ones() {
    assert_eq!(canonical_session_id("coder", "alpha"), "coder@alpha");
    assert_eq!(canonical_session_id("ops@GLOBAL", "alpha"), "ops@GLOBAL");
    assert_eq!(bare_session_id("coder@alpha", "alpha"), "coder");
    assert_eq!(bare_session_id("coder@beta", "alpha"), "coder@beta");
    assert_eq!(bare_session_id("ops@GLOBAL", "alpha"), "ops@GLOBAL");
    // Stripping a qualifier undoes adding it.
    assert_eq!(
        bare_session_id(canonical_session_id("coder", "alpha").as_str(), "alpha"),
        "coder"
    );
}

#[test]
fn principal_ids_split_at_their_last_at_sign() {
    assert_eq!(split_principal_id("a@b@c"), Some(("a@b", "c")));
    assert_eq!(split_principal_id("coder@alpha"), Some(("coder", "alpha")));
    assert_eq!(split_principal_id("coder"), None);
    assert_eq!(split_principal_id("@alpha"), None);
    assert_eq!(split_principal_id("coder@"), None);
}

#[test]
fn principals_classify_by_namespace() {
    assert_eq!(classify_principal_id("coder@alpha"), Some(PrincipalType::Session));
    assert_eq!(classify_principal_id("ops@GLOBAL"), Some(PrincipalType::User));
    assert_eq!(classify_principal_id("app@EXTERNAL"), Some(PrincipalType::Application));
    assert_eq!(classify_principal_id("peer@RELAY"), Some(PrincipalType::Relay));
    assert_eq!(classify_principal_id("bare"), None);
    assert_eq!(PrincipalType::Relay.as_str(), "relay");
}

#[test]
fn a_scope_names_a_principal_or_its_whole_namespace() {
    assert!(scope_permits(Some("coder@alpha"), "coder@alpha"));
    assert!(scope_permits(Some("alpha"), "coder@alpha"));
    assert!(!scope_permits(Some("beta"), "coder@alpha"));
    assert!(!scope_permits(None, "coder@alpha"));
}

#[test]
fn session_components_start_with_a_letter() {
    assert!(is_valid_session_component("coder-1_a"));
    assert!(!is_valid_session_component("1coder"));
    assert!(!is_valid_session_component(""));
    assert!(!is_valid_session_component("co der"));
}

#[test]
fn token_hashes_are_lowercase_hex_sha256() {
    assert_eq!(
        hash_token_sha256("abc"),
        "ba7816bf8f01cfea414140de5dae2223b00361a396177a9cb410ff61f20015ad"
    );
    assert_eq!(hash_token_sha256("abc").len(), 64);
    let empty = hash_token_sha256("");
    assert_eq!(empty, "e3b0c44298fc1c149afbf4c8996fb92427ae41e4649b934ca495991b7852b855");
    assert!(empty.chars().all(|c| c.is_ascii_digit() || ('a'..='f').contains(&c)));
}

#[test]
fn generated_keys_are_unpadded_base64_of_thirty_two_bytes() {
    let psk = generate_psk().expect("the OS random source works here");
    assert_eq!(psk.len(), 43);
    assert!(!psk.ends_with('='));
    let other = generate_psk().expect("the OS random source works here");
    assert_ne!(psk, other);
}

#[test]
fn the_store_keeps_one_record_per_credential_hash() {
    let mut store = PrincipalStore::new();
    assert!(store.insert(record("app@EXTERNAL", PrincipalType::Application, "t1", None)).is_none());
    assert!(store.insert(record("peer@RELAY", PrincipalType::Relay, "t2", None)).is_none());
    let displaced = store.insert(record("other@EXTERNAL", PrincipalType::Application, "t1", None));
    assert_eq!(displaced.expect("same hash displaces").principal_id, "app@EXTERNAL");
    assert_eq!(store.records().len(), 2);
    let found = store
        .find_by_credential_hash(hash_token_sha256("t1").as_str())
        .expect("inserted hash is found");
    assert_eq!(found.principal_id, "other@EXTERNAL");
    assert!(store.find_by_principal_id("peer@RELAY").is_some());
    assert!(store.remove_by_principal_id("peer@RELAY").is_some());
    assert!(store.find_by_principal_id("peer@RELAY").is_none());
    assert!(store.remove_by_principal_id("peer@RELAY").is_none());
}

#[test]
fn pruning_drops_expired_and_unparseable_records_only() {
    let mut store = PrincipalStore::new();
    store.insert(record("a@EXTERNAL", PrincipalType::Application, "a", Some("2000-01-01T00:00:00Z")));
    store.insert(record("b@EXTERNAL", PrincipalType::Application, "b", Some("not a time")));
    store.insert(record("c@EXTERNAL", PrincipalType::Application, "c", Some("2999-01-01T00:00:00Z")));
    store.insert(record("d@EXTERNAL", PrincipalType::Application, "d", None));
    // 2024-01-01T00:00:00Z in nanoseconds.
    let now: i128 = 1_704_067_200 * 1_000_000_000;
    assert_eq!(store.prune_expired(now), 2);
    let ids: Vec<&str> = store.records().iter().map(|r| r.principal_id.as_str()).collect();
    assert_eq!(ids, vec!["c@EXTERNAL", "d@EXTERNAL"]);
}

#[test]
fn a_recognized_credential_authenticates_only_its_principal() {
    let mut store = PrincipalStore::new();
    store.insert(record("app@EXTERNAL", PrincipalType::Application, "secret", None));
    store.insert(record("peer@RELAY", PrincipalType::Relay, "peer-secret", Some("2000-01-01T00:00:00Z")));
    let now: i128 = 1_704_067_200 * 1_000_000_000;

    let ok = verify_hello_credential("app@EXTERNAL", "secret", &store, true, now).expect("binds");
    assert!(ok.store_backed);
    assert_eq!(ok.principal_type, PrincipalType::Application);
    assert_eq!(ok.introspect_rights.expect("application rights").scope.as_deref(), Some("alpha"));
    assert!(ok.ingress_scope.is_none());

    let mismatch = verify_hello_credential("x@EXTERNAL", "secret", &store, true, now).unwrap_err();
    assert_eq!(mismatch.code, "validation_identity_binding_mismatch");

    let unknown = verify_hello_credential("app@EXTERNAL", "nope", &store, true, now).unwrap_err();
    assert_eq!(unknown.code, "validation_unrecognized_credential");

    let expired = verify_hello_credential("peer@RELAY", "peer-secret", &store, true, now).unwrap_err();
    assert_eq!(expired.code, "runtime_identity_expired");

    let malformed = verify_hello_credential("nobody", "secret", &store, true, now).unwrap_err();
    assert_eq!(malformed.code, "validation_invalid_principal_id");
}

#[test]
fn socket_trust_admits_only_sessions_and_users_without_enforcement() {
    let store = PrincipalStore::new();
    let ok = verify_hello_credential("coder@alpha", "socket-trust", &store, false, 0).expect("admitted");
    assert!(!ok.store_backed);
    assert!(ok.introspect_rights.is_none());
    let enforced = verify_hello_credential("coder@alpha", "socket-trust", &store, true, 0).unwrap_err();
    assert_eq!(enforced.code, "validation_credential_required");
    let app = verify_hello_credential("app@EXTERNAL", "socket-trust", &store, false, 0).unwrap_err();
    assert_eq!(app.code, "validation_credential_required");
}
