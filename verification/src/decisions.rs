//! Operator decisions on pending permission and choice requests: validating a
//! decision, reading its kind, mapping a failed resolution to the error the
//! operator sees, and handling a permission decision or listing against the
//! runtime directory's queue.
use vstd::prelude::*;
use vstd::string::*;

use crate::configuration::BundleConfiguration;
use crate::delivery::permission_state::{
    already_resolved_code, first_with_id, PendingPermissionRequest, PendingRequestView,
    PermissionDecisionKind, PermissionDecisionRequest, PermissionDetails, PermissionQueue,
    PermissionResolutionOutcome, ResolutionView, unknown_option_error,
};
use crate::errors::{
    details_view, error_view, one_detail, owned_text_field, relay_error, text_detail, text_field,
    two_details, Detail, DetailValue, DetailValueView, DetailView, RelayError, RelayErrorView,
};
use crate::identity::{canonical_session_id, spec_canonical};
use crate::text::{is_white_space, 
    find_first, first_index_of, is_blank, is_blank_seq, seq_starts_with, spec_trim, starts_with,
    str_eq, suffix_from, trim,
};

verus! {

/// What an operator decided on a pending choice request.
#[derive(Clone, Copy, Debug, PartialEq, Eq, Structural)]
pub enum ChoiceDecisionKind {
    Selected,
    Cancelled,
}

/// An operator's decision as it arrives on the wire.
pub struct PermissionDecisionRequestContext {
    pub permission_request_id: String,
    pub outcome: String,
    pub option_id: Option<String>,
    pub bundle_name: Option<String>,
    pub ui_session_id: Option<String>,
}

/// The principal a stream request is associated with.
pub struct RequestPrincipal {
    pub session_id: String,
}

/// The answer to a resolved permission decision.
#[derive(Debug)]
pub struct PermissionDecisionResponse {
    pub status: String,
    pub permission_request_id: String,
    pub outcome: String,
    pub reason_code: Option<String>,
    pub reason: Option<String>,
}

/// One pending permission request as listed to an operator.
#[derive(Debug)]
pub struct PendingPermissionEntry {
    pub message_id: String,
    pub permission_request_id: String,
    pub target_session: String,
    pub requested_kind: String,
    pub requested_details: PermissionDetails,
    pub enqueued_at: String,
}

/// The answer to a permission listing.
#[derive(Debug)]
pub struct PermissionListResponse {
    pub bundle_name: String,
    pub pending_requests: Vec<PendingPermissionEntry>,
}

/// A detail holding text, or null when absent.
pub open spec fn optional_text_detail(key: Seq<char>, value: Option<Seq<char>>) -> DetailView {
    DetailView {
        key,
        value: match value {
            None => DetailValueView::Null,
            Some(v) => DetailValueView::Text(v),
        },
    }
}

pub open spec fn opt_view(value: Option<String>) -> Option<Seq<char>> {
    match value {
        None => None,
        Some(v) => Some(v@),
    }
}

pub open spec fn invalid_params(message: Seq<char>, details: Seq<DetailView>) -> RelayErrorView {
    error_view("validation_invalid_params"@, message, Some(details))
}

pub open spec fn field_detail(field: Seq<char>) -> Seq<DetailView> {
    seq![text_detail("field"@, field)]
}

/// The error a permission decision is refused with, if any, in the order the
/// checks run.
pub open spec fn spec_validate_permission_decision(
    bundle_name: Seq<char>,
    request_bundle_name: Option<Seq<char>>,
    ui_session_given: bool,
    permission_request_id: Seq<char>,
    option_id: Option<Seq<char>>,
) -> Option<RelayErrorView> {
    if request_bundle_name is Some && request_bundle_name.unwrap() != bundle_name {
        Some(
            error_view(
                "validation_cross_bundle_unsupported"@,
                "permission decisions are limited to the associated bundle in MVP"@,
                Some(
                    seq![
                        text_detail("associated_bundle_name"@, bundle_name),
                        text_detail("requested_bundle_name"@, request_bundle_name.unwrap()),
                    ],
                ),
            ),
        )
    } else if ui_session_given {
        Some(
            invalid_params(
                "caller-supplied ui_session_id is not allowed"@,
                field_detail("ui_session_id"@),
            ),
        )
    } else if is_blank_seq(permission_request_id) {
        Some(
            invalid_params(
                "permission_request_id must be non-empty"@,
                field_detail("permission_request_id"@),
            ),
        )
    } else if option_id is Some && is_blank_seq(option_id.unwrap()) {
        Some(invalid_params("option_id must be non-empty when provided"@, field_detail("option_id"@)))
    } else {
        None
    }
}

/// The error a choice decision is refused with, if any.
pub open spec fn spec_validate_choice_decision(
    choice_request_id: Seq<char>,
    option_id: Option<Seq<char>>,
) -> Option<RelayErrorView> {
    if is_blank_seq(choice_request_id) {
        Some(
            invalid_params("choice_request_id must be non-empty"@, field_detail("choice_request_id"@)),
        )
    } else if option_id is Some && is_blank_seq(option_id.unwrap()) {
        Some(invalid_params("option_id must be non-empty when provided"@, field_detail("option_id"@)))
    } else {
        None
    }
}

/// How an outcome word and an option id read as a decision: `selected` needs
/// an option, `cancelled` must have none, and nothing else is an outcome. The
/// error message names the kind of request (`permission` or `choice`).
pub open spec fn spec_decision_kind(
    outcome: Seq<char>,
    option_given: bool,
    kind_name: Seq<char>,
) -> Result<bool, RelayErrorView> {
    if outcome == "selected"@ {
        if !option_given {
            Err(
                invalid_params(
                    "selected outcome requires explicit option_id"@,
                    seq![text_detail("field"@, "option_id"@), text_detail("outcome"@, "selected"@)],
                ),
            )
        } else {
            Ok(true)
        }
    } else if outcome == "cancelled"@ {
        if option_given {
            Err(
                invalid_params(
                    "cancelled outcome must omit option_id"@,
                    seq![text_detail("field"@, "option_id"@), text_detail("outcome"@, "cancelled"@)],
                ),
            )
        } else {
            Ok(false)
        }
    } else {
        Err(
            invalid_params(
                kind_name + " decision outcome must be selected or cancelled"@,
                seq![text_detail("field"@, "outcome"@), text_detail("value"@, outcome)],
            ),
        )
    }
}

/// The text after the first `:` of `cause`, trimmed.
pub open spec fn after_colon(cause: Seq<char>) -> Seq<char> {
    spec_trim(cause.subrange(first_index_of(cause, ':') + 1, cause.len() as int))
}

/// The error a failed resolution is reported as: an already-resolved request,
/// a parameter problem (the message is the cause's text after its first colon),
/// or an unexpected failure carrying the cause.
pub open spec fn spec_map_resolution_error(
    cause: Seq<char>,
    request_id: Seq<char>,
    option_id: Option<Seq<char>>,
    already_resolved: Seq<char>,
    already_message: Seq<char>,
    id_key: Seq<char>,
    failure_message: Seq<char>,
) -> RelayErrorView {
    if cause == already_resolved {
        error_view(already_resolved, already_message, Some(seq![text_detail(id_key, request_id)]))
    } else if seq_starts_with(cause, "validation_invalid_params:"@) {
        invalid_params(
            after_colon(cause),
            seq![text_detail("field"@, "option_id"@), optional_text_detail("value"@, option_id)],
        )
    } else {
        error_view(
            "internal_unexpected_failure"@,
            failure_message,
            Some(seq![text_detail(id_key, request_id), text_detail("cause"@, cause)]),
        )
    }
}

fn option_field(key: &str, value: Option<String>) -> (detail: Detail)
    ensures
        detail@ == optional_text_detail(key@, opt_view(value)),
{
    match value {
        None => Detail { key: String::from_str(key), value: DetailValue::Null },
        Some(v) => owned_text_field(key, v),
    }
}

fn field_error(message: &str, field: &str) -> (error: RelayError)
    ensures
        error@ == invalid_params(message@, field_detail(field@)),
{
    relay_error("validation_invalid_params", message, one_detail(text_field("field", field)))
}

/// Refuses a permission decision aimed at another bundle, carrying a
/// caller-supplied UI session, or naming a blank request or option id.
pub fn validate_permission_decision_request(
    bundle: &BundleConfiguration,
    request_bundle_name: Option<&str>,
    ui_session_id: Option<&String>,
    permission_request_id: &str,
    option_id: Option<&str>,
) -> (checked: Result<(), RelayError>)
    ensures
        match spec_validate_permission_decision(
            bundle.bundle_name@,
            match request_bundle_name {
                None => None,
                Some(n) => Some(n@),
            },
            ui_session_id is Some,
            permission_request_id@,
            match option_id {
                None => None,
                Some(o) => Some(o@),
            },
        ) {
            None => checked is Ok,
            Some(e) => checked is Err && checked->Err_0@ == e,
        },
{
    if let Some(requested) = request_bundle_name {
        if !str_eq(requested, bundle.bundle_name.as_str()) {
            return Err(
                relay_error(
                    "validation_cross_bundle_unsupported",
                    "permission decisions are limited to the associated bundle in MVP",
                    two_details(
                        text_field("associated_bundle_name", bundle.bundle_name.as_str()),
                        text_field("requested_bundle_name", requested),
                    ),
                ),
            );
        }
    }
    if ui_session_id.is_some() {
        return Err(field_error("caller-supplied ui_session_id is not allowed", "ui_session_id"));
    }
    if is_blank(permission_request_id) {
        return Err(field_error("permission_request_id must be non-empty", "permission_request_id"));
    }
    if let Some(option_id) = option_id {
        if is_blank(option_id) {
            return Err(field_error("option_id must be non-empty when provided", "option_id"));
        }
    }
    Ok(())
}

/// Refuses a choice decision naming a blank request or option id.
pub fn validate_choice_decision_request(choice_request_id: &str, option_id: Option<&str>) -> (checked:
    Result<(), RelayError>)
    ensures
        match spec_validate_choice_decision(
            choice_request_id@,
            match option_id {
                None => None,
                Some(o) => Some(o@),
            },
        ) {
            None => checked is Ok,
            Some(e) => checked is Err && checked->Err_0@ == e,
        },
{
    if is_blank(choice_request_id) {
        return Err(field_error("choice_request_id must be non-empty", "choice_request_id"));
    }
    if let Some(option_id) = option_id {
        if is_blank(option_id) {
            return Err(field_error("option_id must be non-empty when provided", "option_id"));
        }
    }
    Ok(())
}

/// Reads the kind of a decision from its outcome word, given whether an
/// option id came with it; `selected` reads as `true`.
fn decision_kind(outcome: &str, option_given: bool, kind_name: &str) -> (kind: Result<
    bool,
    RelayError,
>)
    ensures
        match spec_decision_kind(outcome@, option_given, kind_name@) {
            Ok(b) => kind == Ok::<bool, RelayError>(b),
            Err(e) => kind is Err && kind->Err_0@ == e,
        },
{
    if str_eq(outcome, "selected") {
        if !option_given {
            return Err(
                relay_error(
                    "validation_invalid_params",
                    "selected outcome requires explicit option_id",
                    two_details(text_field("field", "option_id"), text_field("outcome", "selected")),
                ),
            );
        }
        Ok(true)
    } else if str_eq(outcome, "cancelled") {
        if option_given {
            return Err(
                relay_error(
                    "validation_invalid_params",
                    "cancelled outcome must omit option_id",
                    two_details(
                        text_field("field", "option_id"),
                        text_field("outcome", "cancelled"),
                    ),
                ),
            );
        }
        Ok(false)
    } else {
        let mut message = String::from_str(kind_name);
        message.append(" decision outcome must be selected or cancelled");
        Err(
            relay_error(
                "validation_invalid_params",
                message.as_str(),
                two_details(text_field("field", "outcome"), text_field("value", outcome)),
            ),
        )
    }
}

/// Reads a permission decision's kind.
pub fn permission_decision_kind(outcome: &str, option_id: Option<&String>) -> (kind: Result<
    PermissionDecisionKind,
    RelayError,
>)
    ensures
        match spec_decision_kind(outcome@, option_id is Some, "permission"@) {
            Ok(selected) => kind is Ok && (kind->Ok_0 == (if selected {
                PermissionDecisionKind::Selected
            } else {
                PermissionDecisionKind::Cancelled
            })),
            Err(e) => kind is Err && kind->Err_0@ == e,
        },
{
    match decision_kind(outcome, option_id.is_some(), "permission") {
        Ok(true) => Ok(PermissionDecisionKind::Selected),
        Ok(false) => Ok(PermissionDecisionKind::Cancelled),
        Err(e) => Err(e),
    }
}

/// Reads a choice decision's kind.
pub fn choice_decision_kind(outcome: &str, option_id: Option<&String>) -> (kind: Result<
    ChoiceDecisionKind,
    RelayError,
>)
    ensures
        match spec_decision_kind(outcome@, option_id is Some, "choice"@) {
            Ok(selected) => kind is Ok && (kind->Ok_0 == (if selected {
                ChoiceDecisionKind::Selected
            } else {
                ChoiceDecisionKind::Cancelled
            })),
            Err(e) => kind is Err && kind->Err_0@ == e,
        },
{
    match decision_kind(outcome, option_id.is_some(), "choice") {
        Ok(true) => Ok(ChoiceDecisionKind::Selected),
        Ok(false) => Ok(ChoiceDecisionKind::Cancelled),
        Err(e) => Err(e),
    }
}

fn map_resolution_error(
    cause: String,
    request_id: &str,
    option_id: Option<String>,
    already_resolved: &str,
    already_message: &str,
    id_key: &str,
    failure_message: &str,
) -> (error: RelayError)
    ensures
        error@ == spec_map_resolution_error(
            cause@,
            request_id@,
            opt_view(option_id),
            already_resolved@,
            already_message@,
            id_key@,
            failure_message@,
        ),
{
    if str_eq(cause.as_str(), already_resolved) {
        relay_error(already_resolved, already_message, one_detail(text_field(id_key, request_id)))
    } else if starts_with(cause.as_str(), "validation_invalid_params:") {
        let ghost c = cause@;
        proof {
            reveal_strlit("validation_invalid_params:");
            assert(c.subrange(0, 26)[25] == ':');
            lemma_first_colon_exists(c, 25);
        }
        let colon = match find_first(cause.as_str(), ':') {
            Some(i) => i,
            None => 0,
        };
        let rest = suffix_from(cause.as_str(), colon + 1);
        let message = trim(rest.as_str());
        relay_error(
            "validation_invalid_params",
            message.as_str(),
            two_details(text_field("field", "option_id"), option_field("value", option_id)),
        )
    } else {
        relay_error(
            "internal_unexpected_failure",
            failure_message,
            two_details(text_field(id_key, request_id), owned_text_field("cause", cause)),
        )
    }
}

/// A text holding `c` at `k` has a first occurrence of `c` at or before `k`.
proof fn lemma_first_colon_exists(s: Seq<char>, k: int)
    requires
        0 <= k < s.len(),
        s[k] == ':',
    ensures
        0 <= first_index_of(s, ':') <= k,
    decreases k,
{
    if s[0] != ':' {
        lemma_first_colon_exists(s.drop_first(), k - 1);
    }
}

/// The error a failed permission resolution is reported as.
pub fn map_permission_resolution_error(
    cause: String,
    permission_request_id: &str,
    option_id: Option<String>,
) -> (error: RelayError)
    ensures
        error@ == spec_map_resolution_error(
            cause@,
            permission_request_id@,
            opt_view(option_id),
            "runtime_permission_request_already_resolved"@,
            "permission request is already resolved"@,
            "permission_request_id"@,
            "failed to resolve permission request"@,
        ),
{
    map_resolution_error(
        cause,
        permission_request_id,
        option_id,
        "runtime_permission_request_already_resolved",
        "permission request is already resolved",
        "permission_request_id",
        "failed to resolve permission request",
    )
}

/// The error a failed choice resolution is reported as.
pub fn map_choice_resolution_error(
    cause: String,
    choice_request_id: &str,
    option_id: Option<String>,
) -> (error: RelayError)
    ensures
        error@ == spec_map_resolution_error(
            cause@,
            choice_request_id@,
            opt_view(option_id),
            "runtime_choices_request_already_resolved"@,
            "choice request is already resolved"@,
            "choice_request_id"@,
            "failed to resolve choice request"@,
        ),
{
    map_resolution_error(
        cause,
        choice_request_id,
        option_id,
        "runtime_choices_request_already_resolved",
        "choice request is already resolved",
        "choice_request_id",
        "failed to resolve choice request",
    )
}

pub open spec fn missing_hello(message: Seq<char>) -> RelayErrorView {
    error_view("validation_missing_hello"@, message, None)
}

/// The response to a resolved permission decision.
pub open spec fn decision_response_holds(
    response: PermissionDecisionResponse,
    permission_request_id: Seq<char>,
    outcome: Seq<char>,
    reason_code: Option<Seq<char>>,
    reason: Option<Seq<char>>,
) -> bool {
    &&& response.status@ == "resolved"@
    &&& response.permission_request_id@ == permission_request_id
    &&& response.outcome@ == outcome
    &&& opt_view(response.reason_code) == reason_code
    &&& opt_view(response.reason) == reason
}

/// The message a selection of an option the request does not offer is
/// reported with: the offending option, named.
pub open spec fn unoffered_option_message(option_id: Seq<char>) -> Seq<char> {
    "selected option_id '"@ + option_id + "' is not present in pending permission options"@
}

/// Handles an operator's decision on a pending permission request: the
/// decision is validated and read, the requester must be a stream-associated
/// principal that `grant` (its authorization to grant) admits, and the request
/// is then resolved in the queue, taken out of it whether or not the selection
/// names an offered option.
pub fn handle_permission_decision(
    queue: &mut PermissionQueue,
    bundle: &BundleConfiguration,
    request: PermissionDecisionRequestContext,
    principal: Option<RequestPrincipal>,
    grant: Result<(), RelayError>,
) -> (handled: Result<PermissionDecisionResponse, RelayError>)
    ensures
        final(queue).next() == old(queue).next(),
        ({
            let invalid = spec_validate_permission_decision(
                bundle.bundle_name@,
                opt_view(request.bundle_name),
                request.ui_session_id is Some,
                request.permission_request_id@,
                opt_view(request.option_id),
            );
            let kind = spec_decision_kind(
                request.outcome@,
                request.option_id is Some,
                "permission"@,
            );
            let i = first_with_id(old(queue).requests(), request.permission_request_id@);
            &&& invalid is Some ==> handled is Err && handled->Err_0@ == invalid.unwrap()
                && final(queue).requests() == old(queue).requests()
            &&& invalid is None && kind is Err ==> handled is Err && handled->Err_0@
                == kind->Err_0 && final(queue).requests() == old(queue).requests()
            &&& invalid is None && kind is Ok && principal is None ==> handled is Err
                && handled->Err_0@ == missing_hello(
                "permission decisions require stream-associated principal identity"@,
            ) && final(queue).requests() == old(queue).requests()
            &&& invalid is None && kind is Ok && principal is Some && grant is Err ==> handled
                is Err && handled->Err_0@ == grant->Err_0@ && final(queue).requests() == old(
                queue,
            ).requests()
            &&& invalid is None && kind is Ok && principal is Some && grant is Ok && i < 0
                ==> handled is Err && handled->Err_0@ == error_view(
                already_resolved_code(),
                "permission request is already resolved"@,
                Some(seq![text_detail("permission_request_id"@, request.permission_request_id@)]),
            ) && final(queue).requests() == old(queue).requests()
            &&& invalid is None && kind is Ok && principal is Some && grant is Ok && i >= 0
                ==> final(queue).requests() == old(queue).requests().remove(i)
            &&& invalid is None && kind == Ok::<bool, RelayErrorView>(false) && principal is Some
                && grant is Ok && i >= 0 ==> handled is Ok && decision_response_holds(
                handled->Ok_0,
                request.permission_request_id@,
                "cancelled"@,
                Some("runtime_permission_request_cancelled"@),
                Some("permission request was cancelled by UI decision"@),
            )
            &&& invalid is None && kind == Ok::<bool, RelayErrorView>(true) && principal is Some
                && grant is Ok && i >= 0 && old(queue).requests()[i].option_ids.contains(
                request.option_id.unwrap()@,
            ) ==> handled is Ok && decision_response_holds(
                handled->Ok_0,
                request.permission_request_id@,
                "selected"@,
                None,
                None,
            )
            &&& invalid is None && kind == Ok::<bool, RelayErrorView>(true) && principal is Some
                && grant is Ok && i >= 0 && !old(queue).requests()[i].option_ids.contains(
                request.option_id.unwrap()@,
            ) ==> handled is Err && handled->Err_0@ == invalid_params(
                unoffered_option_message(request.option_id.unwrap()@),
                seq![
                    text_detail("field"@, "option_id"@),
                    optional_text_detail("value"@, opt_view(request.option_id)),
                ],
            )
        }),
{
    let PermissionDecisionRequestContext {
        permission_request_id,
        outcome,
        option_id,
        bundle_name: request_bundle_name,
        ui_session_id,
    } = request;
    let requested = match &request_bundle_name {
        None => None,
        Some(n) => Some(n.as_str()),
    };
    let option_ref = match &option_id {
        None => None,
        Some(o) => Some(o.as_str()),
    };
    validate_permission_decision_request(
        bundle,
        requested,
        ui_session_id.as_ref(),
        permission_request_id.as_str(),
        option_ref,
    )?;
    let decision = permission_decision_kind(outcome.as_str(), option_id.as_ref())?;
    let principal = match principal {
        None => {
            return Err(
                relay_error(
                    "validation_missing_hello",
                    "permission decisions require stream-associated principal identity",
                    None,
                ),
            );
        },
        Some(p) => p,
    };
    grant?;
    let decided_by = canonical_session_id(
        principal.session_id.as_str(),
        bundle.bundle_name.as_str(),
    );
    let option_copy = match &option_id {
        None => None,
        Some(o) => Some(o.clone()),
    };
    let resolved = queue.resolve_permission_request(
        PermissionDecisionRequest {
            permission_request_id: permission_request_id.clone(),
            option_id: option_copy,
            decision,
            decided_by,
        },
    );
    match resolved {
        Err(cause) => {
            proof {
                if option_id is Some {
                    lemma_unoffered_option_message(option_id.unwrap()@);
                }
            }
            Err(map_permission_resolution_error(cause, permission_request_id.as_str(), option_id))
        },
        Ok(resolution) => {
            let response = match resolution.outcome {
                PermissionResolutionOutcome::Selected { .. } => PermissionDecisionResponse {
                    status: String::from_str("resolved"),
                    permission_request_id,
                    outcome: String::from_str("selected"),
                    reason_code: None,
                    reason: None,
                },
                PermissionResolutionOutcome::Cancelled { reason_code, reason, .. } => {
                    PermissionDecisionResponse {
                        status: String::from_str("resolved"),
                        permission_request_id,
                        outcome: String::from_str("cancelled"),
                        reason_code: Some(reason_code),
                        reason,
                    }
                },
            };
            Ok(response)
        },
    }
}

/// A selection of an option the request does not offer reaches the operator
/// as a parameter error naming that option: the resolution's cause, mapped,
/// carries exactly that message.
pub proof fn lemma_unoffered_option_message(option_id: Seq<char>)
    ensures
        seq_starts_with(unknown_option_error(option_id), "validation_invalid_params:"@),
        unknown_option_error(option_id) != already_resolved_code(),
        after_colon(unknown_option_error(option_id)) == unoffered_option_message(option_id),
{
    let prefix = "validation_invalid_params:"@;
    let head = "validation_invalid_params: selected option_id '"@;
    let tail = "' is not present in pending permission options"@;
    let cause = unknown_option_error(option_id);
    reveal_strlit("validation_invalid_params:");
    reveal_strlit("validation_invalid_params: selected option_id '");
    reveal_strlit("' is not present in pending permission options");
    reveal_strlit("selected option_id '");
    reveal_strlit("runtime_permission_request_already_resolved");
    assert(cause == head + option_id + tail);
    assert(cause.subrange(0, 26) =~= prefix);
    assert(cause[25] == ':');
    lemma_first_colon_at(cause, 25);
    let rest = cause.subrange(26, cause.len() as int);
    let message = unoffered_option_message(option_id);
    assert(rest =~= seq![' '] + message);
    assert(cause.len() != already_resolved_code().len() || cause[0] != already_resolved_code()[0]);
    assert(rest[0] == ' ');
    assert(crate::text::is_white_space(' '));
    assert(rest.drop_first() =~= message);
    assert(!crate::text::is_white_space(message[0]));
    assert(crate::text::trim_start(rest) == crate::text::trim_start(message));
    assert(crate::text::trim_start(message) == message);
    assert(message.last() == 's');
    assert(crate::text::trim_end(message) == message);
}

/// The first colon of a text whose first `k` characters hold none is at `k`.
proof fn lemma_first_colon_at(s: Seq<char>, k: int)
    requires
        0 <= k < s.len(),
        s[k] == ':',
        forall|j: int| 0 <= j < k ==> s[j] != ':',
    ensures
        first_index_of(s, ':') == k,
    decreases k,
{
    if k > 0 {
        assert forall|j: int| 0 <= j < k - 1 implies s.drop_first()[j] != ':' by {
            assert(s.drop_first()[j] == s[j + 1]);
        }
        lemma_first_colon_at(s.drop_first(), k - 1);
    }
}

/// Lists the pending permission requests of the associated bundle, each
/// target named by its canonical id, to a stream-associated principal that
/// `grant` admits.
pub fn handle_permission_list(
    queue: &PermissionQueue,
    bundle: &BundleConfiguration,
    request_bundle_name: Option<String>,
    principal: Option<RequestPrincipal>,
    grant: Result<(), RelayError>,
) -> (listed: Result<PermissionListResponse, RelayError>)
    ensures
        request_bundle_name is Some && request_bundle_name.unwrap()@ != bundle.bundle_name@
            ==> listed is Err && listed->Err_0@ == error_view(
            "validation_cross_bundle_unsupported"@,
            "permission list is limited to the associated bundle"@,
            Some(
                seq![
                    text_detail("associated_bundle_name"@, bundle.bundle_name@),
                    text_detail("requested_bundle_name"@, request_bundle_name.unwrap()@),
                ],
            ),
        ),
        !(request_bundle_name is Some && request_bundle_name.unwrap()@ != bundle.bundle_name@)
            && principal is None ==> listed is Err && listed->Err_0@ == missing_hello(
            "permission list requires stream-associated principal identity"@,
        ),
        !(request_bundle_name is Some && request_bundle_name.unwrap()@ != bundle.bundle_name@)
            && principal is Some && grant is Err ==> listed is Err && listed->Err_0@
            == grant->Err_0@,
        !(request_bundle_name is Some && request_bundle_name.unwrap()@ != bundle.bundle_name@)
            && principal is Some && grant is Ok ==> listed is Ok && listed->Ok_0.bundle_name@
            == bundle.bundle_name@ && listed->Ok_0.pending_requests@.len()
            == queue.requests().len() && forall|k: int|
            0 <= k < queue.requests().len() ==> {
                let entry = #[trigger] listed->Ok_0.pending_requests@[k];
                let record = queue.requests()[k];
                &&& entry.message_id@ == record.message_id
                &&& entry.permission_request_id@ == record.permission_request_id
                &&& entry.target_session@ == spec_canonical(
                    record.target_session,
                    bundle.bundle_name@,
                )
                &&& entry.requested_kind@ == record.requested_kind
                &&& entry.requested_details.document@ == record.document
                &&& entry.requested_details.option_ids@.map_values(|s: String| s@)
                    == record.option_ids
                &&& entry.enqueued_at@ == record.enqueued_at
            },
{
    if let Some(requested) = &request_bundle_name {
        if !str_eq(requested.as_str(), bundle.bundle_name.as_str()) {
            return Err(
                relay_error(
                    "validation_cross_bundle_unsupported",
                    "permission list is limited to the associated bundle",
                    two_details(
                        text_field("associated_bundle_name", bundle.bundle_name.as_str()),
                        text_field("requested_bundle_name", requested.as_str()),
                    ),
                ),
            );
        }
    }
    if principal.is_none() {
        return Err(
            relay_error(
                "validation_missing_hello",
                "permission list requires stream-associated principal identity",
                None,
            ),
        );
    }
    grant?;
    let pending = queue.list_pending_permission_requests();
    let ghost records = queue.requests();
    let mut entries: Vec<PendingPermissionEntry> = Vec::new();
    let mut rest = pending;
    let total = rest.len();
    let mut i: usize = 0;
    while rest.len() > 0
        invariant
            rest@.len() + i == total,
            total == records.len(),
            records == queue.requests(),
            forall|j: int| 0 <= j < rest@.len() ==> #[trigger] rest@[j]@ == records[i + j],
            entries@.len() == i,
            forall|k: int|
                0 <= k < i ==> {
                    let entry = #[trigger] entries@[k];
                    let record = records[k];
                    &&& entry.message_id@ == record.message_id
                    &&& entry.permission_request_id@ == record.permission_request_id
                    &&& entry.target_session@ == spec_canonical(
                        record.target_session,
                        bundle.bundle_name@,
                    )
                    &&& entry.requested_kind@ == record.requested_kind
                    &&& entry.requested_details.document@ == record.document
                    &&& entry.requested_details.option_ids@.map_values(|s: String| s@)
                        == record.option_ids
                    &&& entry.enqueued_at@ == record.enqueued_at
                },
        decreases rest@.len(),
    {
        let record: PendingPermissionRequest = rest.remove(0);
        assert(record@ == records[i as int]);
        let target_session = canonical_session_id(
            record.target_session.as_str(),
            bundle.bundle_name.as_str(),
        );
        entries.push(
            PendingPermissionEntry {
                message_id: record.message_id,
                permission_request_id: record.permission_request_id,
                target_session,
                requested_kind: record.requested_kind,
                requested_details: record.requested_details,
                enqueued_at: record.enqueued_at,
            },
        );
        assert forall|j: int| 0 <= j < rest@.len() implies #[trigger] rest@[j]@ == records[i + 1
            + j] by {}
        i = i + 1;
    }
    Ok(PermissionListResponse { bundle_name: bundle.bundle_name.clone(), pending_requests: entries })
}

/// How the choice queue resolved a decision.
#[derive(Debug)]
pub enum ChoiceResolutionOutcome {
    Selected { decided_by: String },
    Cancelled { decided_by: String, reason_code: String, reason: Option<String> },
}

/// The answer to a resolved choice decision.
#[derive(Debug)]
pub struct ChoicesPickResponse {
    pub status: String,
    pub choice_request_id: String,
    pub outcome: String,
    pub decided_by: String,
    pub reason_code: Option<String>,
    pub reason: Option<String>,
}

/// The checks a choice decision passes before it is resolved, in order: its
/// ids, its kind, a stream-associated principal, and the principal's
/// authorization to choose (`authorized`). Returns the decision's kind and
/// who decides it, by canonical id in the bundle.
pub fn choices_pick_precheck(
    bundle: &BundleConfiguration,
    choice_request_id: &str,
    outcome: &str,
    option_id: Option<&String>,
    principal: Option<RequestPrincipal>,
    authorized: Result<(), RelayError>,
) -> (checked: Result<(ChoiceDecisionKind, String), RelayError>)
    ensures
        ({
            let invalid = spec_validate_choice_decision(
                choice_request_id@,
                match option_id {
                    None => None,
                    Some(o) => Some(o@),
                },
            );
            let kind = spec_decision_kind(outcome@, option_id is Some, "choice"@);
            &&& invalid is Some ==> checked is Err && checked->Err_0@ == invalid.unwrap()
            &&& invalid is None && kind is Err ==> checked is Err && checked->Err_0@ == kind->Err_0
            &&& invalid is None && kind is Ok && principal is None ==> checked is Err
                && checked->Err_0@ == missing_hello(
                "choice decisions require stream-associated principal identity"@,
            )
            &&& invalid is None && kind is Ok && principal is Some && authorized is Err ==> checked
                is Err && checked->Err_0@ == authorized->Err_0@
            &&& invalid is None && kind is Ok && principal is Some && authorized is Ok ==> checked
                is Ok && checked->Ok_0.0 == (if kind->Ok_0 {
                ChoiceDecisionKind::Selected
            } else {
                ChoiceDecisionKind::Cancelled
            }) && checked->Ok_0.1@ == spec_canonical(
                principal.unwrap().session_id@,
                bundle.bundle_name@,
            )
        }),
{
    let option = match option_id {
        None => None,
        Some(o) => Some(o.as_str()),
    };
    match validate_choice_decision_request(choice_request_id, option) {
        Err(e) => return Err(e),
        Ok(()) => {},
    }
    let kind = match choice_decision_kind(outcome, option_id) {
        Err(e) => return Err(e),
        Ok(k) => k,
    };
    let principal = match principal {
        None => {
            return Err(
                relay_error(
                    "validation_missing_hello",
                    "choice decisions require stream-associated principal identity",
                    None,
                ),
            );
        },
        Some(p) => p,
    };
    match authorized {
        Err(e) => return Err(e),
        Ok(()) => {},
    }
    let decided_by = canonical_session_id(principal.session_id.as_str(), bundle.bundle_name.as_str());
    Ok((kind, decided_by))
}

/// The answer to a choice decision from how the queue resolved it: a
/// selection or a cancellation (with its reason), or the resolution error,
/// mapped.
pub fn choices_pick_answer(
    choice_request_id: String,
    option_id: Option<String>,
    resolution: Result<ChoiceResolutionOutcome, String>,
) -> (answer: Result<ChoicesPickResponse, RelayError>)
    ensures
        match resolution {
            Err(cause) => answer is Err && answer->Err_0@ == spec_map_resolution_error(
                cause@,
                choice_request_id@,
                opt_view(option_id),
                "runtime_choices_request_already_resolved"@,
                "choice request is already resolved"@,
                "choice_request_id"@,
                "failed to resolve choice request"@,
            ),
            Ok(ChoiceResolutionOutcome::Selected { decided_by }) => answer is Ok
                && answer->Ok_0.status@ == "resolved"@ && answer->Ok_0.choice_request_id@
                == choice_request_id@ && answer->Ok_0.outcome@ == "selected"@
                && answer->Ok_0.decided_by@ == decided_by@ && answer->Ok_0.reason_code is None
                && answer->Ok_0.reason is None,
            Ok(ChoiceResolutionOutcome::Cancelled { decided_by, reason_code, reason }) => answer
                is Ok && answer->Ok_0.status@ == "resolved"@ && answer->Ok_0.choice_request_id@
                == choice_request_id@ && answer->Ok_0.outcome@ == "cancelled"@
                && answer->Ok_0.decided_by@ == decided_by@ && opt_view(answer->Ok_0.reason_code)
                == Some(reason_code@) && opt_view(answer->Ok_0.reason) == opt_view(reason),
        },
{
    match resolution {
        Err(cause) => Err(map_choice_resolution_error(cause, choice_request_id.as_str(), option_id)),
        Ok(ChoiceResolutionOutcome::Selected { decided_by }) => Ok(
            ChoicesPickResponse {
                status: String::from_str("resolved"),
                choice_request_id,
                outcome: String::from_str("selected"),
                decided_by,
                reason_code: None,
                reason: None,
            },
        ),
        Ok(ChoiceResolutionOutcome::Cancelled { decided_by, reason_code, reason }) => Ok(
            ChoicesPickResponse {
                status: String::from_str("resolved"),
                choice_request_id,
                outcome: String::from_str("cancelled"),
                decided_by,
                reason_code: Some(reason_code),
                reason,
            },
        ),
    }
}

/// A choice decision naming a blank request id (nothing but white space, the
/// empty id included) is refused, whatever its option, with the invalid-params
/// error naming the `choice_request_id` field; one with a non-blank id and no
/// option passes.
pub proof fn lemma_blank_choice_request_is_refused(
    choice_request_id: Seq<char>,
    option_id: Option<Seq<char>>,
)
    ensures
        (forall|i: int| 0 <= i < choice_request_id.len() ==> is_white_space(
            #[trigger] choice_request_id[i],
        )) ==> spec_validate_choice_decision(choice_request_id, option_id) == Some(
            error_view(
                "validation_invalid_params"@,
                "choice_request_id must be non-empty"@,
                Some(seq![text_detail("field"@, "choice_request_id"@)]),
            ),
        ),
        (exists|i: int| 0 <= i < choice_request_id.len() && !is_white_space(
            #[trigger] choice_request_id[i],
        )) ==> spec_validate_choice_decision(choice_request_id, None) is None,
        (exists|i: int| 0 <= i < choice_request_id.len() && !is_white_space(
            #[trigger] choice_request_id[i],
        )) && option_id is Some && (forall|i: int|
            0 <= i < option_id.unwrap().len() ==> is_white_space(#[trigger] option_id.unwrap()[i]))
            ==> spec_validate_choice_decision(choice_request_id, option_id) == Some(
            error_view(
                "validation_invalid_params"@,
                "option_id must be non-empty when provided"@,
                Some(seq![text_detail("field"@, "option_id"@)]),
            ),
        ),
{
}

} // verus!
