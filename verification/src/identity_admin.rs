//! Relay-wide identity administration: introspecting, registering, rotating,
//! re-scoping and dropping principals of the principal store.
//!
//! The relay is the only issuer of credentials. A registration or rotation
//! stores the new credential's hash and publishes the raw credential once,
//! in the response or in a file; the store and the file are published in an
//! order that never leaves a principal without a usable credential, and a
//! failed publication rolls the store back to what it was. The store's
//! reads and writes are the host's; the decisions taken around them, and
//! the edits of the store, are here.
use vstd::prelude::*;
use vstd::string::*;

use crate::errors::{error_view, relay_error, text_detail, text_field, one_detail, two_details, RelayError, RelayErrorView};
use crate::identity::{classify_principal_id, scope_permits, spec_classify, spec_scope_permits, spec_split, split_principal_id, PrincipalType};
use crate::principals::{
    has_hash, has_id, hash_index, is_first_id_index, spec_expired, spec_insert, spec_unexpired,
    IdentityIntrospectRights,
    PrincipalRecord, PrincipalRecordView, PrincipalStore,
};
use crate::seqs::{first_index, lemma_first_index, lemma_first_index_is};
use crate::text::str_eq;

verus! {

/// An advisory note attached to an otherwise successful answer.
#[derive(Debug)]
pub struct RelayDiagnostic {
    pub code: String,
    pub message: String,
}

pub open spec fn with_id(id: Seq<char>) -> spec_fn(PrincipalRecordView) -> bool {
    |r: PrincipalRecordView| r.principal_id == id
}

/// The first record registered to `id`, if any.
pub open spec fn record_of(records: Seq<PrincipalRecordView>, id: Seq<char>) -> Option<
    PrincipalRecordView,
> {
    let i = first_index(records, with_id(id));
    if i >= 0 {
        Some(records[i])
    } else {
        None
    }
}

/// `records` without the first record registered to `id`.
pub open spec fn without(records: Seq<PrincipalRecordView>, id: Seq<char>) -> Seq<PrincipalRecordView> {
    let i = first_index(records, with_id(id));
    if i >= 0 {
        records.remove(i)
    } else {
        records
    }
}

proof fn lemma_first_id(records: Seq<PrincipalRecordView>, id: Seq<char>, i: int)
    requires
        is_first_id_index(records, id, i),
    ensures
        first_index(records, with_id(id)) == i,
{
    assert forall|j: int| 0 <= j < i implies !with_id(id)(#[trigger] records[j]) by {}
    lemma_first_index_is(records, with_id(id), i);
}

proof fn lemma_no_id(records: Seq<PrincipalRecordView>, id: Seq<char>)
    requires
        !has_id(records, id),
    ensures
        first_index(records, with_id(id)) == -1,
{
    lemma_first_index(records, with_id(id));
    if first_index(records, with_id(id)) >= 0 {
        let i = first_index(records, with_id(id));
        assert(records[i].principal_id == id);
    }
}

/// The first record registered to `principal_id`, copied.
pub fn lookup_record(store: &PrincipalStore, principal_id: &str) -> (found: Option<PrincipalRecord>)
    ensures
        match record_of(store@, principal_id@) {
            None => found is None,
            Some(r) => found is Some && found.unwrap()@ == r,
        },
{
    match store.find_by_principal_id(principal_id) {
        None => {
            proof {
                lemma_no_id(store@, principal_id@);
            }
            None
        },
        Some(record) => {
            proof {
                let i = choose|i: int|
                    is_first_id_index(store@, principal_id@, i) && #[trigger] store@[i]
                        == record@;
                lemma_first_id(store@, principal_id@, i);
            }
            Some(record.copy())
        },
    }
}

/// Removes the first record registered to `principal_id`, returning it.
fn take_record(store: &mut PrincipalStore, principal_id: &str) -> (removed: Option<PrincipalRecord>)
    ensures
        final(store)@ == without(old(store)@, principal_id@),
        match record_of(old(store)@, principal_id@) {
            None => removed is None,
            Some(r) => removed is Some && removed.unwrap()@ == r,
        },
{
    let removed = store.remove_by_principal_id(principal_id);
    proof {
        if removed is None {
            lemma_no_id(old(store)@, principal_id@);
        } else {
            let r = removed.unwrap();
            let i = choose|i: int|
                is_first_id_index(old(store)@, principal_id@, i) && #[trigger] old(store)@[i]
                    == r@ && final(store)@ == old(store)@.remove(i);
            lemma_first_id(old(store)@, principal_id@, i);
        }
    }
    removed
}

/// Replaces the record registered to `record`'s principal id with `record`.
pub fn replace_record(store: &mut PrincipalStore, record: PrincipalRecord)
    ensures
        final(store)@ == spec_insert(without(old(store)@, record@.principal_id), record@),
{
    let _ = take_record(store, record.principal_id.as_str());
    let _ = store.insert(record);
}

/// The error naming a `principal_id` that is not in `<id>@<namespace>` form.
pub open spec fn invalid_principal_id(principal_id: Seq<char>) -> RelayErrorView {
    error_view(
        "validation_invalid_principal_id"@,
        "principal_id is not in <id>@<namespace> form"@,
        Some(seq![text_detail("principal_id"@, principal_id)]),
    )
}

/// The type of principal a registration names, or the error for an id not in
/// `<id>@<namespace>` form.
pub fn classify_target_principal(principal_id: &str) -> (kind: Result<PrincipalType, RelayError>)
    ensures
        match spec_classify(principal_id@) {
            Some(t) => kind == Ok::<PrincipalType, RelayError>(t),
            None => kind is Err && kind->Err_0@ == invalid_principal_id(principal_id@),
        },
{
    match classify_principal_id(principal_id) {
        Some(t) => Ok(t),
        None => Err(
            relay_error(
                "validation_invalid_principal_id",
                "principal_id is not in <id>@<namespace> form",
                one_detail(text_field("principal_id", principal_id)),
            ),
        ),
    }
}

/// The policy-tier values, which no ingress scope is.
pub open spec fn is_policy_tier(scope: Seq<char>) -> bool {
    scope == "none"@ || scope == "self"@ || scope == "home"@ || scope == "all"@
}

/// The advisory message for an ingress scope spelled like a policy tier.
pub open spec fn tier_scope_message(scope: Seq<char>) -> Seq<char> {
    "ingress scope '"@ + scope
        + "' is a policy-tier value, not an ingress scope; an ingress scope names a session@bundle principal or a bare namespace, so this matches a namespace literally named '"@
        + scope + "' and nothing else"@
}

/// Flags an ingress scope spelled as a policy tier (`none`, `self`, `home`,
/// `all`): advisory, since a bundle may really be named so.
pub fn scope_vocabulary_diagnostics(scope: Option<&str>) -> (diagnostics: Vec<RelayDiagnostic>)
    ensures
        match scope {
            Some(s) => if is_policy_tier(s@) {
                diagnostics@.len() == 1 && diagnostics@[0].code@
                    == "advisory_scope_resembles_policy_tier"@ && diagnostics@[0].message@
                    == tier_scope_message(s@)
            } else {
                diagnostics@.len() == 0
            },
            None => diagnostics@.len() == 0,
        },
{
    let mut diagnostics: Vec<RelayDiagnostic> = Vec::new();
    let s = match scope {
        None => return diagnostics,
        Some(s) => s,
    };
    if !(str_eq(s, "none") || str_eq(s, "self") || str_eq(s, "home") || str_eq(s, "all")) {
        return diagnostics;
    }
    let mut message = String::from_str("ingress scope '");
    message.append(s);
    message.append(
        "' is a policy-tier value, not an ingress scope; an ingress scope names a session@bundle principal or a bare namespace, so this matches a namespace literally named '",
    );
    message.append(s);
    message.append("' and nothing else");
    diagnostics.push(
        RelayDiagnostic { code: String::from_str("advisory_scope_resembles_policy_tier"), message },
    );
    diagnostics
}

/// A store write whose replacement was published but whose directory sync
/// failed: the new state is in effect, its durability uncertain.
pub open spec fn spec_durability_uncertain(error: RelayErrorView) -> bool {
    error.code == "internal_store_durability_uncertain"@
}

/// A credential rename that published the file but could not sync its
/// directory.
pub open spec fn spec_credential_uncertain(error: RelayErrorView) -> bool {
    error.code == "internal_credential_durability_uncertain"@
}

/// Whether a store write failed after publishing its replacement.
pub fn is_durability_uncertain(error: &RelayError) -> (uncertain: bool)
    ensures
        uncertain == spec_durability_uncertain(error@),
{
    str_eq(error.code.as_str(), "internal_store_durability_uncertain")
}

/// Whether a credential rename failed after publishing the file.
pub fn is_credential_uncertain(error: &RelayError) -> (uncertain: bool)
    ensures
        uncertain == spec_credential_uncertain(error@),
{
    str_eq(error.code.as_str(), "internal_credential_durability_uncertain")
}

/// The error for a credential publication that failed and whose store
/// rollback failed too.
pub open spec fn spec_rollback_failed(write_error: RelayErrorView, rollback_error: RelayErrorView) -> RelayErrorView {
    error_view(
        "internal_credential_rollback_failed"@,
        "credential publish failed and the principal-store rollback also failed; the store may be inconsistent"@,
        Some(
            seq![
                text_detail("write_error"@, write_error.code),
                text_detail("rollback_error"@, rollback_error.code),
            ],
        ),
    )
}

/// Reports a failed publication whose store rollback failed too, naming both
/// errors' codes.
pub fn credential_rollback_failed(write_error: &RelayError, rollback_error: &RelayError) -> (error:
    RelayError)
    ensures
        error@ == spec_rollback_failed(write_error@, rollback_error@),
{
    relay_error(
        "internal_credential_rollback_failed",
        "credential publish failed and the principal-store rollback also failed; the store may be inconsistent",
        two_details(
            text_field("write_error", write_error.code.as_str()),
            text_field("rollback_error", rollback_error.code.as_str()),
        ),
    )
}

/// The denial of an introspection the connection may not perform.
pub open spec fn spec_introspect_denied(target: Seq<char>) -> RelayErrorView {
    error_view(
        "authorization_forbidden"@,
        "request denied by authorization policy"@,
        Some(
            seq![
                text_detail("capability"@, "identity.introspect"@),
                text_detail("target_principal_id"@, target),
            ],
        ),
    )
}

/// Denies an introspection of `target_principal_id`.
pub fn introspect_denied(target_principal_id: &str) -> (error: RelayError)
    ensures
        error@ == spec_introspect_denied(target_principal_id@),
{
    relay_error(
        "authorization_forbidden",
        "request denied by authorization policy",
        two_details(
            text_field("capability", "identity.introspect"),
            text_field("target_principal_id", target_principal_id),
        ),
    )
}

/// What an introspection reports of the principal it found.
#[derive(Debug)]
pub struct IntrospectAnswer {
    pub principal_id: String,
    pub expires_at: Option<String>,
    /// The principal's credential has not expired.
    pub verified: bool,
}

pub open spec fn store_view(store: Result<PrincipalStore, RelayError>) -> Result<
    Seq<PrincipalRecordView>,
    RelayErrorView,
> {
    match store {
        Ok(s) => Ok(s@),
        Err(e) => Err(e@),
    }
}

pub open spec fn opt_text(value: Option<String>) -> Option<Seq<char>> {
    match value {
        None => None,
        Some(v) => Some(v@),
    }
}

/// What an introspection of `target` comes to, given the connection's
/// rights (the scope they carry) and the store as loading it turned out.
pub open spec fn spec_introspect(
    store: Result<Seq<PrincipalRecordView>, RelayErrorView>,
    rights: Option<Option<Seq<char>>>,
    target: Seq<char>,
    now: i128,
) -> Result<(Seq<char>, Option<Seq<char>>, bool), RelayErrorView> {
    if spec_split(target) is None {
        Err(
            error_view(
                "validation_invalid_params"@,
                "target_session must be a qualified principal id (<id>@<namespace>)"@,
                Some(seq![text_detail("field"@, "target_session"@)]),
            ),
        )
    } else {
        match rights {
            None => Err(spec_introspect_denied(target)),
            Some(scope) => if !spec_scope_permits(scope, target) {
                Err(spec_introspect_denied(target))
            } else {
                match store {
                    Err(e) => Err(e),
                    Ok(records) => match record_of(records, target) {
                        None => Err(
                            error_view(
                                "validation_unknown_principal"@,
                                "no registered principal matches the introspection target"@,
                                Some(seq![text_detail("principal_id"@, target)]),
                            ),
                        ),
                        Some(r) => Ok((r.principal_id, r.expires_at, !spec_expired(r.expires_at, now))),
                    },
                }
            },
        }
    }
}

/// Introspects `target_session` for a connection holding `rights`: the
/// target must be a qualified id, the connection must hold introspection
/// rights whose scope covers it, and a registered principal must match; an
/// expired principal is still reported, unverified.
pub fn handle_identity_introspect(
    store: &Result<PrincipalStore, RelayError>,
    rights: Option<&IdentityIntrospectRights>,
    target_session: &str,
    now: i128,
) -> (answer: Result<IntrospectAnswer, RelayError>)
    ensures
        match spec_introspect(
            store_view(*store),
            match rights {
                None => None,
                Some(r) => Some(opt_text(r.scope)),
            },
            target_session@,
            now,
        ) {
            Ok((id, expires_at, verified)) => answer is Ok && answer->Ok_0.principal_id@ == id
                && opt_text(answer->Ok_0.expires_at) == expires_at && answer->Ok_0.verified
                == verified,
            Err(e) => answer is Err && answer->Err_0@ == e,
        },
{
    if split_principal_id(target_session).is_none() {
        return Err(
            relay_error(
                "validation_invalid_params",
                "target_session must be a qualified principal id (<id>@<namespace>)",
                one_detail(text_field("field", "target_session")),
            ),
        );
    }
    let rights = match rights {
        None => return Err(introspect_denied(target_session)),
        Some(r) => r,
    };
    let scope = match &rights.scope {
        None => None,
        Some(s) => Some(s.as_str()),
    };
    if !scope_permits(scope, target_session) {
        return Err(introspect_denied(target_session));
    }
    let store = match store {
        Err(e) => return Err(crate::groups::copy_error(e)),
        Ok(s) => s,
    };
    match lookup_record(store, target_session) {
        None => Err(
            relay_error(
                "validation_unknown_principal",
                "no registered principal matches the introspection target",
                one_detail(text_field("principal_id", target_session)),
            ),
        ),
        Some(record) => {
            let verified = !record.is_expired(now);
            Ok(
                IntrospectAnswer {
                    principal_id: record.principal_id,
                    expires_at: record.expires_at,
                    verified,
                },
            )
        },
    }
}

/// The store a registration checks against: loaded, pruned of expired
/// records at `now`, and refusing a principal id that is already registered.
pub fn registration_check(store: Result<PrincipalStore, RelayError>, principal_id: &str, now: i128) -> (checked:
    Result<PrincipalStore, RelayError>)
    ensures
        match store_view(store) {
            Err(e) => checked is Err && checked->Err_0@ == e,
            Ok(records) => {
                let pruned = spec_unexpired(records, now);
                &&& record_of(pruned, principal_id@) is Some ==> checked is Err && checked->Err_0@
                    == error_view(
                    "validation_principal_exists"@,
                    "principal_id is already registered; rotate with change psk instead"@,
                    Some(seq![text_detail("principal_id"@, principal_id@)]),
                )
                &&& record_of(pruned, principal_id@) is None ==> checked is Ok && checked->Ok_0@
                    == pruned
            },
        },
{
    let mut store = match store {
        Err(e) => return Err(e),
        Ok(s) => s,
    };
    let _ = store.prune_expired(now);
    if lookup_record(&store, principal_id).is_some() {
        return Err(
            relay_error(
                "validation_principal_exists",
                "principal_id is already registered; rotate with change psk instead",
                one_detail(text_field("principal_id", principal_id)),
            ),
        );
    }
    Ok(store)
}

/// The error for a principal id the store does not hold.
pub open spec fn unknown_principal(principal_id: Seq<char>, message: Seq<char>) -> RelayErrorView {
    error_view(
        "validation_unknown_principal"@,
        message,
        Some(seq![text_detail("principal_id"@, principal_id)]),
    )
}

/// The record a rotation replaces: the store is loaded and pruned of expired
/// records at `now`, and the principal must be registered in it.
pub fn rotation_target(store: Result<PrincipalStore, RelayError>, principal_id: &str, now: i128) -> (found:
    Result<(PrincipalStore, PrincipalRecord), RelayError>)
    ensures
        match store_view(store) {
            Err(e) => found is Err && found->Err_0@ == e,
            Ok(records) => {
                let pruned = spec_unexpired(records, now);
                match record_of(pruned, principal_id@) {
                    None => found is Err && found->Err_0@ == unknown_principal(
                        principal_id@,
                        "principal_id is not registered; create it with new peer first"@,
                    ),
                    Some(r) => found is Ok && found->Ok_0.0@ == pruned && found->Ok_0.1@ == r,
                }
            },
        },
{
    let mut store = match store {
        Err(e) => return Err(e),
        Ok(s) => s,
    };
    let _ = store.prune_expired(now);
    match lookup_record(&store, principal_id) {
        None => Err(
            relay_error(
                "validation_unknown_principal",
                "principal_id is not registered; create it with new peer first",
                one_detail(text_field("principal_id", principal_id)),
            ),
        ),
        Some(record) => Ok((store, record)),
    }
}

/// `existing` under a new credential hash, its type, scope, expiry and
/// metadata kept.
pub fn with_credential(existing: &PrincipalRecord, credential_hash: String) -> (record:
    PrincipalRecord)
    ensures
        record@ == (PrincipalRecordView { credential_hash: credential_hash@, ..existing@ }),
{
    let mut record = existing.copy();
    record.credential_hash = credential_hash;
    record
}

/// `existing` under a new ingress scope, its credential, type, expiry and
/// metadata kept.
pub fn with_scope(existing: &PrincipalRecord, scope: Option<String>) -> (record: PrincipalRecord)
    ensures
        record@ == (PrincipalRecordView { scope: opt_text(scope), ..existing@ }),
{
    let mut record = existing.copy();
    record.scope = scope;
    record
}

/// The error refusing a principal's attempt to drop itself.
pub open spec fn self_drop_forbidden(principal_id: Seq<char>) -> RelayErrorView {
    error_view(
        "validation_self_drop_forbidden"@,
        "a principal cannot drop itself; drop it from another authenticated principal"@,
        Some(seq![text_detail("principal_id"@, principal_id)]),
    )
}

/// What dropping `principal_id` decides before its removal is persisted:
/// a principal may not drop itself (checked before anything else), the
/// requester must be authorized, then the store is loaded and pruned at
/// `now`, and the principal's record is taken out of it.
pub fn drop_peer_plan(
    store: Result<PrincipalStore, RelayError>,
    requester_principal_id: &str,
    principal_id: &str,
    authorized: Result<(), RelayError>,
    now: i128,
) -> (planned: Result<(PrincipalStore, PrincipalRecord), RelayError>)
    ensures
        principal_id@ == requester_principal_id@ ==> planned is Err && planned->Err_0@
            == self_drop_forbidden(principal_id@),
        principal_id@ != requester_principal_id@ ==> match authorized {
            Err(e) => planned is Err && planned->Err_0@ == e@,
            Ok(()) => match store_view(store) {
                Err(e) => planned is Err && planned->Err_0@ == e,
                Ok(records) => {
                    let pruned = spec_unexpired(records, now);
                    match record_of(pruned, principal_id@) {
                        None => planned is Err && planned->Err_0@ == unknown_principal(
                            principal_id@,
                            "principal_id is not registered"@,
                        ),
                        Some(r) => planned is Ok && planned->Ok_0.0@ == without(
                            pruned,
                            principal_id@,
                        ) && planned->Ok_0.1@ == r,
                    }
                },
            },
        },
{
    if str_eq(principal_id, requester_principal_id) {
        return Err(
            relay_error(
                "validation_self_drop_forbidden",
                "a principal cannot drop itself; drop it from another authenticated principal",
                one_detail(text_field("principal_id", principal_id)),
            ),
        );
    }
    match authorized {
        Err(e) => return Err(e),
        Ok(()) => {},
    }
    let mut store = match store {
        Err(e) => return Err(e),
        Ok(s) => s,
    };
    let _ = store.prune_expired(now);
    match take_record(&mut store, principal_id) {
        None => Err(
            relay_error(
                "validation_unknown_principal",
                "principal_id is not registered",
                one_detail(text_field("principal_id", principal_id)),
            ),
        ),
        Some(record) => Ok((store, record)),
    }
}

/// What a drop answers once its removal was published.
#[derive(Debug)]
pub struct DropPeerAnswer {
    pub principal_id: String,
    pub principal_type: PrincipalType,
    /// Where the relay keeps the dropped principal's credential: only a
    /// session principal has a relay-owned credential location.
    pub credential_path: Option<String>,
}

/// What a drop does after persisting: whether the principal's live sessions
/// are revoked, and what it answers.
#[derive(Debug)]
pub struct DropDecision {
    pub revoke: bool,
    pub answer: Result<DropPeerAnswer, RelayError>,
}

/// Decides a drop from how persisting the removal went: a failure before the
/// removal was published leaves the principal authenticating and revokes
/// nothing; once published, its sessions are revoked, and a failed directory
/// sync is reported as uncertain durability instead of success.
/// `session_credential_path` is where the host keeps the credential of a
/// session principal of that id.
pub fn drop_peer_outcome(
    persisted: Result<(), RelayError>,
    principal_id: &str,
    principal_type: PrincipalType,
    session_credential_path: Option<String>,
) -> (decision: DropDecision)
    ensures
        match persisted {
            Ok(()) => decision.revoke && decision.answer is Ok && decision.answer->Ok_0.principal_id@
                == principal_id@ && decision.answer->Ok_0.principal_type == principal_type && opt_text(
                decision.answer->Ok_0.credential_path,
            ) == (if principal_type == PrincipalType::Session {
                opt_text(session_credential_path)
            } else {
                None
            }),
            Err(e) => if spec_durability_uncertain(e@) {
                decision.revoke && decision.answer is Err && decision.answer->Err_0@ == error_view(
                    "internal_store_durability_uncertain"@,
                    "principal removal published but parent-directory sync failed; durability is uncertain and the removal remains effective"@,
                    Some(seq![text_detail("principal_id"@, principal_id@)]),
                )
            } else {
                !decision.revoke && decision.answer is Err && decision.answer->Err_0@ == e@
            },
        },
{
    match persisted {
        Err(e) => {
            if is_durability_uncertain(&e) {
                DropDecision {
                    revoke: true,
                    answer: Err(
                        relay_error(
                            "internal_store_durability_uncertain",
                            "principal removal published but parent-directory sync failed; durability is uncertain and the removal remains effective",
                            one_detail(text_field("principal_id", principal_id)),
                        ),
                    ),
                }
            } else {
                DropDecision { revoke: false, answer: Err(e) }
            }
        },
        Ok(()) => {
            let credential_path = match principal_type {
                PrincipalType::Session => session_credential_path,
                _ => None,
            };
            DropDecision {
                revoke: true,
                answer: Ok(
                    DropPeerAnswer {
                        principal_id: String::from_str(principal_id),
                        principal_type,
                        credential_path,
                    },
                ),
            }
        },
    }
}

/// The error sent to a session whose credential was revoked: by a drop, or
/// by a rotation.
pub open spec fn spec_revoked_frame(principal_id: Seq<char>, rotated: bool) -> RelayErrorView {
    error_view(
        "runtime_identity_revoked"@,
        if rotated {
            "identity credential was rotated; reconnect with the new credential"@
        } else {
            "identity was dropped; the credential no longer authenticates"@
        },
        Some(seq![text_detail("principal_id"@, principal_id)]),
    )
}

/// The error frame that ends a session holding a revoked credential.
pub fn identity_revoked_error(principal_id: &str, rotated: bool) -> (error: RelayError)
    ensures
        error@ == spec_revoked_frame(principal_id@, rotated),
{
    let message = if rotated {
        "identity credential was rotated; reconnect with the new credential"
    } else {
        "identity was dropped; the credential no longer authenticates"
    };
    relay_error("runtime_identity_revoked", message, one_detail(text_field("principal_id", principal_id)))
}

/// Whether a rotation tears down the rotated principal's live connections: a
/// principal rotating its own credential keeps its connection, so the answer
/// carrying the new credential reaches it.
pub fn revokes_connections(principal_id: &str, requester_principal_id: &str) -> (revokes: bool)
    ensures
        revokes == (principal_id@ != requester_principal_id@),
{
    !str_eq(principal_id, requester_principal_id)
}

/// What re-scoping a peer relay decides before the new record is persisted:
/// the requester must be authorized; the principal must be a relay principal
/// (`<id>@RELAY`); the scope must parse (`canonical_scope`); then the store
/// is loaded (not pruned: nothing else may change), the principal must be
/// registered, as a relay principal, and its record is replaced by one
/// under the new scope. Returns the store to persist and the previous scope.
pub fn change_scope_plan(
    store: Result<PrincipalStore, RelayError>,
    principal_id: &str,
    authorized: Result<(), RelayError>,
    canonical_scope: Result<Option<String>, RelayError>,
) -> (planned: Result<(PrincipalStore, Option<String>), RelayError>)
    ensures
        match authorized {
            Err(e) => planned is Err && planned->Err_0@ == e@,
            Ok(()) => if spec_classify(principal_id@) != Some(PrincipalType::Relay) {
                planned is Err && planned->Err_0@ == error_view(
                    "validation_invalid_principal_id"@,
                    "change scope applies only to peer relay principals (<id>@RELAY)"@,
                    Some(seq![text_detail("principal_id"@, principal_id@)]),
                )
            } else {
                match canonical_scope {
                    Err(e) => planned is Err && planned->Err_0@ == e@,
                    Ok(scope) => match store_view(store) {
                        Err(e) => planned is Err && planned->Err_0@ == e,
                        Ok(records) => match record_of(records, principal_id@) {
                            None => planned is Err && planned->Err_0@ == unknown_principal(
                                principal_id@,
                                "principal_id is not registered; create it with new peer first"@,
                            ),
                            Some(r) => if r.principal_type != PrincipalType::Relay {
                                planned is Err && planned->Err_0@ == error_view(
                                    "validation_invalid_params"@,
                                    "change scope applies only to registered relay principals"@,
                                    Some(
                                        seq![
                                            text_detail("field"@, "principal_id"@),
                                            text_detail("principal_id"@, principal_id@),
                                        ],
                                    ),
                                )
                            } else {
                                planned is Ok && planned->Ok_0.0@ == spec_insert(
                                    without(records, principal_id@),
                                    PrincipalRecordView { scope: opt_text(scope), ..r },
                                ) && opt_text(planned->Ok_0.1) == r.scope
                            },
                        },
                    },
                }
            },
        },
{
    match authorized {
        Err(e) => return Err(e),
        Ok(()) => {},
    }
    match classify_principal_id(principal_id) {
        Some(PrincipalType::Relay) => {},
        _ => {
            return Err(
                relay_error(
                    "validation_invalid_principal_id",
                    "change scope applies only to peer relay principals (<id>@RELAY)",
                    one_detail(text_field("principal_id", principal_id)),
                ),
            );
        },
    }
    let scope = match canonical_scope {
        Err(e) => return Err(e),
        Ok(scope) => scope,
    };
    let mut store = match store {
        Err(e) => return Err(e),
        Ok(s) => s,
    };
    let existing = match lookup_record(&store, principal_id) {
        None => {
            return Err(
                relay_error(
                    "validation_unknown_principal",
                    "principal_id is not registered; create it with new peer first",
                    one_detail(text_field("principal_id", principal_id)),
                ),
            );
        },
        Some(r) => r,
    };
    match existing.principal_type {
        PrincipalType::Relay => {},
        _ => {
            return Err(
                relay_error(
                    "validation_invalid_params",
                    "change scope applies only to registered relay principals",
                    two_details(
                        text_field("field", "principal_id"),
                        text_field("principal_id", principal_id),
                    ),
                ),
            );
        },
    }
    let previous = match &existing.scope {
        None => None,
        Some(s) => Some(s.clone()),
    };
    proof {
        lemma_first_index(store@, with_id(principal_id@));
    }
    let record = with_scope(&existing, scope);
    replace_record(&mut store, record);
    Ok((store, previous))
}

/// What a re-scoping answers once its record was published.
#[derive(Debug)]
pub struct ChangeScopeAnswer {
    pub principal_id: String,
    /// The scope in effect; empty when the grant was cleared.
    pub scope: String,
    pub diagnostics: Vec<RelayDiagnostic>,
}

/// The scope in effect after a re-scoping: the new scope, or empty when it
/// was cleared.
pub open spec fn effective_scope(scope: Option<Seq<char>>) -> Seq<char> {
    match scope {
        Some(s) => s,
        None => Seq::empty(),
    }
}

/// Decides a re-scoping from how persisting it went: a failure before
/// publication leaves the old grant in effect and is reported as it is;
/// once published, the new scope is in effect, and a failed directory sync is
/// reported as uncertain durability naming it.
pub fn change_scope_outcome(
    persisted: Result<(), RelayError>,
    principal_id: &str,
    canonical_scope: Option<String>,
) -> (answer: Result<ChangeScopeAnswer, RelayError>)
    ensures
        match persisted {
            Ok(()) => answer is Ok && answer->Ok_0.principal_id@ == principal_id@
                && answer->Ok_0.scope@ == effective_scope(opt_text(canonical_scope)) && match canonical_scope {
                Some(s) => if is_policy_tier(s@) {
                    answer->Ok_0.diagnostics@.len() == 1 && answer->Ok_0.diagnostics@[0].message@
                        == tier_scope_message(s@)
                } else {
                    answer->Ok_0.diagnostics@.len() == 0
                },
                None => answer->Ok_0.diagnostics@.len() == 0,
            },
            Err(e) => if spec_durability_uncertain(e@) {
                answer is Err && answer->Err_0@ == error_view(
                    "internal_store_durability_uncertain"@,
                    "scope replacement published but parent-directory sync failed; durability is uncertain and the replacement remains effective"@,
                    Some(
                        seq![
                            text_detail("principal_id"@, principal_id@),
                            text_detail("scope"@, effective_scope(opt_text(canonical_scope))),
                        ],
                    ),
                )
            } else {
                answer is Err && answer->Err_0@ == e@
            },
        },
{
    let effective = match &canonical_scope {
        Some(s) => s.clone(),
        None => String::new(),
    };
    match persisted {
        Err(e) => {
            if is_durability_uncertain(&e) {
                Err(
                    relay_error(
                        "internal_store_durability_uncertain",
                        "scope replacement published but parent-directory sync failed; durability is uncertain and the replacement remains effective",
                        two_details(
                            text_field("principal_id", principal_id),
                            text_field("scope", effective.as_str()),
                        ),
                    ),
                )
            } else {
                Err(e)
            }
        },
        Ok(()) => {
            let diagnostics = scope_vocabulary_diagnostics(
                match &canonical_scope {
                    None => None,
                    Some(s) => Some(s.as_str()),
                },
            );
            Ok(ChangeScopeAnswer { principal_id: String::from_str(principal_id), scope: effective, diagnostics })
        },
    }
}

/// Which credential a transaction publishes: a new principal's, or a
/// rotated one replacing an existing principal's.
#[derive(Clone, Copy, Debug, PartialEq, Eq, Structural)]
pub enum CredentialWrite {
    Register,
    Rotate,
}

/// Where a credential transaction stands. It starts `Publishing`, with the
/// new record in the store and the credential, when it goes to a file,
/// staged beside it.
#[derive(Debug)]
pub enum CredentialPhase {
    /// The store holding the new record awaits its first persist.
    Publishing,
    /// That persist published the new record but could not sync (the error);
    /// the store with the prior state restored awaits persist.
    Compensating(RelayError),
    /// The store is committed; the staged credential awaits its rename.
    Committing,
    /// The rename failed (the error); the store with the prior state restored
    /// awaits persist.
    RollingBack(RelayError),
    /// The transaction has ended.
    Done,
}

/// What the host reports back: how a persist of the store went, or how the
/// staged credential's rename went (with the path it was published at).
#[derive(Debug)]
pub enum CredentialEvent {
    Persisted(Result<(), RelayError>),
    Committed(Result<String, RelayError>),
}

/// What the host does next.
#[derive(Debug)]
pub enum CredentialAction {
    /// Restore the prior state in the store (remove the new record, or put
    /// the replaced one back) and persist it.
    RestoreAndPersist,
    /// Rename the staged credential into place.
    CommitStaged,
    /// Discard the staged credential, if any, and fail with the error.
    AbortAndFail(RelayError),
    /// Publish the staged credential, if any, as best it can, and fail with
    /// the error.
    PublishAndFail(RelayError),
    /// Fail with the error, leaving the files as they are.
    Fail(RelayError),
    /// The transaction succeeded; the path the credential was written to, or
    /// `None` when it goes back in the response.
    Succeed(Option<String>),
}

/// What a registration or rotation answers about its new credential.
#[derive(Debug)]
pub struct CredentialAnswer {
    pub principal_id: String,
    /// The new PSK, only when it was not written to a file.
    pub psk: Option<String>,
    /// Where the new PSK was written, when it went to a file.
    pub written_path: Option<String>,
}

/// The answer of a successful registration or rotation of `principal_id`
/// whose transaction published the credential at `written_path` (`None` when
/// it goes back in the answer): the PSK is returned exactly when it was not
/// written to a file, so a credential is never both on disk and in the reply.
pub fn credential_answer(principal_id: String, psk: String, written_path: Option<String>) -> (answer:
    CredentialAnswer)
    ensures
        answer.principal_id@ == principal_id@,
        written_path is Some ==> answer.psk is None && answer.written_path is Some
            && answer.written_path.unwrap()@ == written_path.unwrap()@,
        written_path is None ==> answer.written_path is None && answer.psk is Some
            && answer.psk.unwrap()@ == psk@,
{
    match written_path {
        Some(path) => CredentialAnswer { principal_id, psk: None, written_path: Some(path) },
        None => CredentialAnswer { principal_id, psk: Some(psk), written_path: None },
    }
}

/// Begins a credential transaction once the credential's sink is staged:
/// when staging failed (`staged` is its error) nothing is registered, the
/// store is left exactly as it was and the error is returned; otherwise the
/// new record goes into the store (replacing any record under the same
/// credential hash) and the transaction starts `Publishing`.
pub fn stage_registration(
    store: &mut PrincipalStore,
    record: PrincipalRecord,
    staged: Result<(), RelayError>,
) -> (begun: Result<CredentialPhase, RelayError>)
    ensures
        staged is Err ==> begun is Err && begun->Err_0@ == staged->Err_0@ && final(store)@ == old(
            store,
        )@,
        staged is Ok ==> (begun matches Ok(CredentialPhase::Publishing)),
        staged is Ok ==> (if has_hash(
            old(store)@,
            record@.credential_hash,
        ) {
            final(store)@ == old(store)@.update(
                hash_index(old(store)@, record@.credential_hash),
                record@,
            )
        } else {
            final(store)@ == old(store)@.push(record@)
        }),
{
    match staged {
        Err(e) => Err(e),
        Ok(()) => {
            let _ = store.insert(record);
            Ok(CredentialPhase::Publishing)
        },
    }
}

/// One step of a credential transaction: the next phase, the action, and
/// whether the live sessions holding the superseded credential are revoked.
#[derive(Debug)]
pub struct CredentialStep {
    pub phase: CredentialPhase,
    pub action: CredentialAction,
    pub revoke: bool,
}

/// The event a phase waits for.
pub open spec fn expects(phase: CredentialPhase, event: CredentialEvent) -> bool {
    match phase {
        CredentialPhase::Committing => event is Committed,
        CredentialPhase::Done => false,
        _ => event is Persisted,
    }
}

/// A credential action, its errors viewed.
pub enum ActionView {
    RestoreAndPersist,
    CommitStaged,
    AbortAndFail(RelayErrorView),
    PublishAndFail(RelayErrorView),
    Fail(RelayErrorView),
    Succeed(Option<Seq<char>>),
}

/// A credential phase, its errors viewed.
pub enum PhaseView {
    Publishing,
    Compensating(RelayErrorView),
    Committing,
    RollingBack(RelayErrorView),
    Done,
}

pub open spec fn phase_view(phase: CredentialPhase) -> PhaseView {
    match phase {
        CredentialPhase::Publishing => PhaseView::Publishing,
        CredentialPhase::Compensating(e) => PhaseView::Compensating(e@),
        CredentialPhase::Committing => PhaseView::Committing,
        CredentialPhase::RollingBack(e) => PhaseView::RollingBack(e@),
        CredentialPhase::Done => PhaseView::Done,
    }
}

pub open spec fn action_view(action: CredentialAction) -> ActionView {
    match action {
        CredentialAction::RestoreAndPersist => ActionView::RestoreAndPersist,
        CredentialAction::CommitStaged => ActionView::CommitStaged,
        CredentialAction::AbortAndFail(e) => ActionView::AbortAndFail(e@),
        CredentialAction::PublishAndFail(e) => ActionView::PublishAndFail(e@),
        CredentialAction::Fail(e) => ActionView::Fail(e@),
        CredentialAction::Succeed(p) => ActionView::Succeed(opt_text(p)),
    }
}

/// The step a credential transaction takes: writing `write`, with a staged
/// credential file or not (`staged`), in `phase`, on `event`.
///
/// - A first persist that failed before publishing leaves the prior state:
///   the staged file is discarded. One that published but could not sync is
///   compensated by restoring the prior state.
/// - A compensation that persisted, or published without syncing, restores
///   the prior state: the staged file is discarded and the first error
///   reported. One that failed before publishing leaves the new record in
///   effect: the staged file is published and both failures reported; a
///   rotation then revokes the sessions on the superseded credential.
/// - With the store committed, a response-bound credential succeeds at once
///   and a staged one is renamed. A rename that published without syncing
///   stands, as does the record; one that failed is rolled back by restoring
///   the prior state, and a rollback that failed is reported with it.
/// - A rotation whose rotated credential is in effect (success, a standing
///   rename, a failed compensation) revokes the superseded credential's
///   sessions; no other step revokes anything.
pub open spec fn spec_credential_step(
    write: CredentialWrite,
    staged: bool,
    phase: PhaseView,
    event: CredentialEvent,
) -> (PhaseView, ActionView, bool) {
    let rotating = write == CredentialWrite::Rotate;
    match (phase, event) {
        (PhaseView::Publishing, CredentialEvent::Persisted(Ok(()))) => if staged {
            (PhaseView::Committing, ActionView::CommitStaged, false)
        } else {
            (PhaseView::Done, ActionView::Succeed(None), rotating)
        },
        (PhaseView::Publishing, CredentialEvent::Persisted(Err(e))) => if spec_durability_uncertain(e@) {
            (PhaseView::Compensating(e@), ActionView::RestoreAndPersist, false)
        } else {
            (PhaseView::Done, ActionView::AbortAndFail(e@), false)
        },
        (PhaseView::Compensating(first), CredentialEvent::Persisted(Ok(()))) => (
            PhaseView::Done,
            ActionView::AbortAndFail(first),
            false,
        ),
        (PhaseView::Compensating(first), CredentialEvent::Persisted(Err(r))) => if spec_durability_uncertain(r@) {
            (PhaseView::Done, ActionView::AbortAndFail(first), false)
        } else {
            (PhaseView::Done, ActionView::PublishAndFail(spec_rollback_failed(first, r@)), rotating)
        },
        (PhaseView::Committing, CredentialEvent::Committed(Ok(path))) => (
            PhaseView::Done,
            ActionView::Succeed(Some(path@)),
            rotating,
        ),
        (PhaseView::Committing, CredentialEvent::Committed(Err(e))) => if spec_credential_uncertain(e@) {
            (PhaseView::Done, ActionView::Fail(e@), rotating)
        } else {
            (PhaseView::RollingBack(e@), ActionView::RestoreAndPersist, false)
        },
        (PhaseView::RollingBack(first), CredentialEvent::Persisted(Ok(()))) => (
            PhaseView::Done,
            ActionView::Fail(first),
            false,
        ),
        (PhaseView::RollingBack(first), CredentialEvent::Persisted(Err(r))) => (
            PhaseView::Done,
            ActionView::Fail(spec_rollback_failed(first, r@)),
            false,
        ),
        _ => (PhaseView::Done, ActionView::RestoreAndPersist, false),
    }
}

/// Takes one step of a credential transaction (see `spec_credential_step`).
pub fn credential_step(
    write: CredentialWrite,
    staged: bool,
    phase: CredentialPhase,
    event: CredentialEvent,
) -> (step: CredentialStep)
    requires
        expects(phase, event),
    ensures
        (phase_view(step.phase), action_view(step.action), step.revoke) == spec_credential_step(
            write,
            staged,
            phase_view(phase),
            event,
        ),
{
    let rotating = match write {
        CredentialWrite::Rotate => true,
        CredentialWrite::Register => false,
    };
    match phase {
        CredentialPhase::Publishing => match event {
            CredentialEvent::Persisted(Ok(())) => if staged {
                CredentialStep {
                    phase: CredentialPhase::Committing,
                    action: CredentialAction::CommitStaged,
                    revoke: false,
                }
            } else {
                CredentialStep {
                    phase: CredentialPhase::Done,
                    action: CredentialAction::Succeed(None),
                    revoke: rotating,
                }
            },
            CredentialEvent::Persisted(Err(e)) => if is_durability_uncertain(&e) {
                CredentialStep {
                    phase: CredentialPhase::Compensating(e),
                    action: CredentialAction::RestoreAndPersist,
                    revoke: false,
                }
            } else {
                CredentialStep {
                    phase: CredentialPhase::Done,
                    action: CredentialAction::AbortAndFail(e),
                    revoke: false,
                }
            },
            CredentialEvent::Committed(_) => CredentialStep {
                phase: CredentialPhase::Done,
                action: CredentialAction::RestoreAndPersist,
                revoke: false,
            },
        },
        CredentialPhase::Compensating(first) => match event {
            CredentialEvent::Persisted(Ok(())) => CredentialStep {
                phase: CredentialPhase::Done,
                action: CredentialAction::AbortAndFail(first),
                revoke: false,
            },
            CredentialEvent::Persisted(Err(r)) => if is_durability_uncertain(&r) {
                CredentialStep {
                    phase: CredentialPhase::Done,
                    action: CredentialAction::AbortAndFail(first),
                    revoke: false,
                }
            } else {
                let error = credential_rollback_failed(&first, &r);
                CredentialStep {
                    phase: CredentialPhase::Done,
                    action: CredentialAction::PublishAndFail(error),
                    revoke: rotating,
                }
            },
            CredentialEvent::Committed(_) => CredentialStep {
                phase: CredentialPhase::Done,
                action: CredentialAction::RestoreAndPersist,
                revoke: false,
            },
        },
        CredentialPhase::Committing => match event {
            CredentialEvent::Committed(Ok(path)) => CredentialStep {
                phase: CredentialPhase::Done,
                action: CredentialAction::Succeed(Some(path)),
                revoke: rotating,
            },
            CredentialEvent::Committed(Err(e)) => if is_credential_uncertain(&e) {
                CredentialStep {
                    phase: CredentialPhase::Done,
                    action: CredentialAction::Fail(e),
                    revoke: rotating,
                }
            } else {
                CredentialStep {
                    phase: CredentialPhase::RollingBack(e),
                    action: CredentialAction::RestoreAndPersist,
                    revoke: false,
                }
            },
            CredentialEvent::Persisted(_) => CredentialStep {
                phase: CredentialPhase::Done,
                action: CredentialAction::RestoreAndPersist,
                revoke: false,
            },
        },
        CredentialPhase::RollingBack(first) => match event {
            CredentialEvent::Persisted(Ok(())) => CredentialStep {
                phase: CredentialPhase::Done,
                action: CredentialAction::Fail(first),
                revoke: false,
            },
            CredentialEvent::Persisted(Err(r)) => {
                let error = credential_rollback_failed(&first, &r);
                CredentialStep {
                    phase: CredentialPhase::Done,
                    action: CredentialAction::Fail(error),
                    revoke: false,
                }
            },
            CredentialEvent::Committed(_) => CredentialStep {
                phase: CredentialPhase::Done,
                action: CredentialAction::RestoreAndPersist,
                revoke: false,
            },
        },
        CredentialPhase::Done => CredentialStep {
            phase: CredentialPhase::Done,
            action: CredentialAction::RestoreAndPersist,
            revoke: false,
        },
    }
}

/// A persist that went through cleanly.
pub open spec fn clean_persist(event: CredentialEvent) -> bool {
    match event {
        CredentialEvent::Persisted(Ok(())) => true,
        _ => false,
    }
}

/// A rename that went through cleanly.
pub open spec fn clean_commit(event: CredentialEvent) -> bool {
    match event {
        CredentialEvent::Committed(Ok(_)) => true,
        _ => false,
    }
}

/// A persist that failed before publishing anything.
pub open spec fn unpublished_persist(event: CredentialEvent) -> bool {
    match event {
        CredentialEvent::Persisted(Err(e)) => !spec_durability_uncertain(e@),
        _ => false,
    }
}

/// A credential transaction revokes live sessions only for a rotation whose
/// rotated credential may be in effect: once it succeeded, once a failed
/// compensation left the rotated record standing, or once a rename published
/// without syncing. A registration never revokes anything.
pub proof fn lemma_revocation_follows_an_effective_rotation(
    write: CredentialWrite,
    staged: bool,
    phase: PhaseView,
    event: CredentialEvent,
)
    ensures
        spec_credential_step(write, staged, phase, event).2 ==> write == CredentialWrite::Rotate && (
        spec_credential_step(write, staged, phase, event).1 is Succeed || spec_credential_step(
            write,
            staged,
            phase,
            event,
        ).1 is PublishAndFail || (spec_credential_step(write, staged, phase, event).1 is Fail
            && phase is Committing)),
{
}

/// A credential transaction succeeds only on a clean publication: the store
/// persisted cleanly with the credential going back in the answer, or the
/// staged credential file was renamed into place cleanly.
pub proof fn lemma_success_needs_a_clean_publication(
    write: CredentialWrite,
    staged: bool,
    phase: PhaseView,
    event: CredentialEvent,
)
    ensures
        spec_credential_step(write, staged, phase, event).1 is Succeed ==> (phase is Publishing
            && clean_persist(event) && !staged) || (phase is Committing && clean_commit(event)),
{
}

/// A failed first publication, or one rolled back, never publishes the
/// staged credential: only a compensation that could not restore the prior
/// state (leaving the new record in effect) publishes it while failing.
pub proof fn lemma_staged_credential_follows_the_record(
    write: CredentialWrite,
    staged: bool,
    phase: PhaseView,
    event: CredentialEvent,
)
    ensures
        spec_credential_step(write, staged, phase, event).1 is PublishAndFail ==> phase is Compensating
            && unpublished_persist(event),
        phase is Publishing && unpublished_persist(event) ==> spec_credential_step(
            write,
            staged,
            phase,
            event,
        ).1 is AbortAndFail,
{
}

} // verus!
