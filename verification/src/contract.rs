//! The relay's request contract and where each request is served.
//!
//! Target operations (`send`, `look`, `raww`) are resolved in the requester's
//! home namespace and go to the namespace-centric paths; everything else is
//! served against the configured bundle, with the requester's canonical
//! `session@bundle` identity rewritten to its bundle-local form first (targets
//! stay fully qualified). A bundle `up` or `down` needs a principal from its
//! stream's Hello. Relay-wide identity administration and discovery never reach
//! the per-bundle dispatcher.
use vstd::prelude::*;

use crate::errors::{error_view, relay_error, RelayError, RelayErrorView};
use crate::identity::{bare_session_id, spec_bare};

verus! {

/// A relay request.
#[allow(inconsistent_fields)]
#[derive(Debug)]
pub enum RelayRequest {
    Up,
    Down,
    List { requester_session: Option<String> },
    Send {
        request_id: Option<String>,
        requester_session: String,
        message: String,
        targets: Vec<String>,
        broadcast: bool,
        quiet_window_ms: Option<u64>,
        on_behalf_of: Option<String>,
    },
    Look {
        requester_session: String,
        target_session: String,
        lines: Option<usize>,
        offset: Option<usize>,
    },
    Raww {
        request_id: Option<String>,
        requester_session: String,
        target_session: String,
        text: String,
        no_enter: bool,
        on_behalf_of: Option<String>,
    },
    ChoicesPick { choice_request_id: String, outcome: String, option_id: Option<String> },
    ChoicesList,
    NewPeer { principal_id: String, scope: Option<String>, output_path: Option<String> },
    ChangePsk { principal_id: String },
    IdentityIntrospect { target_session: String },
    ListRelays,
    DiscoverNamespaces { relay: Option<String> },
    DiscoverPrincipals { relay: Option<String>, namespace: String },
}

/// Where a request is served.
#[derive(Debug)]
pub enum RequestRoute {
    /// The namespace-centric send path.
    SendRouted(RelayRequest),
    /// The namespace-centric look path.
    LookRouted(RelayRequest),
    /// The namespace-centric raww path.
    RawwRouted(RelayRequest),
    /// The per-bundle dispatcher, with identities made bundle-local.
    Bundle(RelayRequest),
}

/// The view of a request's requester and target identities, the only part
/// identity normalization touches.
#[allow(inconsistent_fields)]
pub enum IdentityView {
    List { requester_session: Option<Seq<char>> },
    Send { requester_session: Seq<char>, targets: Seq<Seq<char>> },
    Look { requester_session: Seq<char>, target_session: Seq<char> },
    Raww { requester_session: Seq<char>, target_session: Seq<char> },
    Other,
}

pub open spec fn identity_view(request: RelayRequest) -> IdentityView {
    match request {
        RelayRequest::List { requester_session } => IdentityView::List {
            requester_session: match requester_session {
                None => None,
                Some(s) => Some(s@),
            },
        },
        RelayRequest::Send { requester_session, targets, .. } => IdentityView::Send {
            requester_session: requester_session@,
            targets: targets@.map_values(|t: String| t@),
        },
        RelayRequest::Look { requester_session, target_session, .. } => IdentityView::Look {
            requester_session: requester_session@,
            target_session: target_session@,
        },
        RelayRequest::Raww { requester_session, target_session, .. } => IdentityView::Raww {
            requester_session: requester_session@,
            target_session: target_session@,
        },
        _ => IdentityView::Other,
    }
}

/// The identities after normalization to the bundle-local form.
pub open spec fn spec_normalized(request: RelayRequest, bundle_name: Seq<char>) -> IdentityView {
    match identity_view(request) {
        IdentityView::List { requester_session } => IdentityView::List {
            requester_session: match requester_session {
                None => None,
                Some(s) => Some(spec_bare(s, bundle_name)),
            },
        },
        IdentityView::Send { requester_session, targets } => IdentityView::Send {
            requester_session: spec_bare(requester_session, bundle_name),
            targets,
        },
        IdentityView::Look { requester_session, target_session } => IdentityView::Look {
            requester_session: spec_bare(requester_session, bundle_name),
            target_session,
        },
        IdentityView::Raww { requester_session, target_session } => IdentityView::Raww {
            requester_session: spec_bare(requester_session, bundle_name),
            target_session,
        },
        IdentityView::Other => IdentityView::Other,
    }
}

/// The request's kind, as the variant it is.
pub open spec fn same_kind(a: RelayRequest, b: RelayRequest) -> bool {
    match (a, b) {
        (RelayRequest::Up, RelayRequest::Up) => true,
        (RelayRequest::Down, RelayRequest::Down) => true,
        (RelayRequest::List { .. }, RelayRequest::List { .. }) => true,
        (RelayRequest::Send { .. }, RelayRequest::Send { .. }) => true,
        (RelayRequest::Look { .. }, RelayRequest::Look { .. }) => true,
        (RelayRequest::Raww { .. }, RelayRequest::Raww { .. }) => true,
        (RelayRequest::ChoicesPick { .. }, RelayRequest::ChoicesPick { .. }) => true,
        (RelayRequest::ChoicesList, RelayRequest::ChoicesList) => true,
        (RelayRequest::NewPeer { .. }, RelayRequest::NewPeer { .. }) => true,
        (RelayRequest::ChangePsk { .. }, RelayRequest::ChangePsk { .. }) => true,
        (RelayRequest::IdentityIntrospect { .. }, RelayRequest::IdentityIntrospect { .. }) => true,
        (RelayRequest::ListRelays, RelayRequest::ListRelays) => true,
        (RelayRequest::DiscoverNamespaces { .. }, RelayRequest::DiscoverNamespaces { .. }) => true,
        (RelayRequest::DiscoverPrincipals { .. }, RelayRequest::DiscoverPrincipals { .. }) => true,
        _ => false,
    }
}

/// Whether the request is relay-wide identity administration or discovery,
/// which the per-bundle dispatcher never serves.
pub open spec fn is_relay_wide(request: RelayRequest) -> bool {
    ||| request is NewPeer
    ||| request is ChangePsk
    ||| request is IdentityIntrospect
    ||| request is ListRelays
    ||| request is DiscoverNamespaces
    ||| request is DiscoverPrincipals
}

/// Whether `a` is `b` with at most its requester identity changed: every other
/// field, the targets included, is the same.
pub open spec fn same_but_requester(a: RelayRequest, b: RelayRequest) -> bool {
    match (a, b) {
        (RelayRequest::List { .. }, RelayRequest::List { .. }) => true,
        (
            RelayRequest::Send {
                request_id: i1,
                message: m1,
                targets: t1,
                broadcast: b1,
                quiet_window_ms: q1,
                on_behalf_of: o1,
                ..
            },
            RelayRequest::Send {
                request_id: i2,
                message: m2,
                targets: t2,
                broadcast: b2,
                quiet_window_ms: q2,
                on_behalf_of: o2,
                ..
            },
        ) => i1 == i2 && m1 == m2 && t1 == t2 && b1 == b2 && q1 == q2 && o1 == o2,
        (
            RelayRequest::Look { target_session: t1, lines: l1, offset: f1, .. },
            RelayRequest::Look { target_session: t2, lines: l2, offset: f2, .. },
        ) => t1 == t2 && l1 == l2 && f1 == f2,
        (
            RelayRequest::Raww {
                request_id: i1,
                target_session: t1,
                text: x1,
                no_enter: n1,
                on_behalf_of: o1,
                ..
            },
            RelayRequest::Raww {
                request_id: i2,
                target_session: t2,
                text: x2,
                no_enter: n2,
                on_behalf_of: o2,
                ..
            },
        ) => i1 == i2 && t1 == t2 && x1 == x2 && n1 == n2 && o1 == o2,
        _ => a == b,
    }
}

/// Rewrites the requester's canonical `session@bundle` identity to its
/// bundle-local form, so lookups match configured member ids. Targets stay
/// fully qualified: the target paths classify each one by its `@namespace`.
/// Everything else in the request, a forwarded origin attribution included, is
/// kept.
pub fn normalize_request_identities(request: RelayRequest, bundle_name: &str) -> (normalized:
    RelayRequest)
    ensures
        same_kind(normalized, request),
        same_but_requester(normalized, request),
        identity_view(normalized) == spec_normalized(request, bundle_name@),
{
    match request {
        RelayRequest::List { requester_session } => RelayRequest::List {
            requester_session: match requester_session {
                None => None,
                Some(s) => Some(bare_session_id(s.as_str(), bundle_name)),
            },
        },
        RelayRequest::Send {
            request_id,
            requester_session,
            message,
            targets,
            broadcast,
            quiet_window_ms,
            on_behalf_of,
        } => RelayRequest::Send {
            request_id,
            requester_session: bare_session_id(requester_session.as_str(), bundle_name),
            message,
            targets,
            broadcast,
            quiet_window_ms,
            on_behalf_of,
        },
        RelayRequest::Look { requester_session, target_session, lines, offset } => {
            RelayRequest::Look {
                requester_session: bare_session_id(requester_session.as_str(), bundle_name),
                target_session,
                lines,
                offset,
            }
        },
        RelayRequest::Raww {
            request_id,
            requester_session,
            target_session,
            text,
            no_enter,
            on_behalf_of,
        } => RelayRequest::Raww {
            request_id,
            requester_session: bare_session_id(requester_session.as_str(), bundle_name),
            target_session,
            text,
            no_enter,
            on_behalf_of,
        },
        other => other,
    }
}

/// The refusal of a bundle `up` or `down` that carries no stream-associated
/// principal.
pub open spec fn spec_missing_hello() -> RelayErrorView {
    error_view(
        "validation_missing_hello"@,
        "bundle up/down requests require stream-associated principal identity"@,
        None,
    )
}

/// A bundle `up` or `down` must come from a principal known from its stream's
/// Hello; one without a principal is refused before any authorization.
pub fn authorize_bundle_principal(principal: Option<&str>) -> (checked: Result<(), RelayError>)
    ensures
        principal is None ==> checked is Err && checked->Err_0@ == spec_missing_hello(),
        principal is Some ==> checked is Ok,
{
    match principal {
        None => Err(
            relay_error(
                "validation_missing_hello",
                "bundle up/down requests require stream-associated principal identity",
                None,
            ),
        ),
        Some(_) => Ok(()),
    }
}

/// The refusal of a relay-wide request that reached the per-bundle dispatcher.
pub open spec fn spec_relay_wide_refused() -> RelayErrorView {
    error_view(
        "internal_unexpected_request"@,
        "relay-wide request reached the per-bundle dispatcher"@,
        None,
    )
}

/// Decides where a request for a configured bundle is served, for a request
/// whose stream authenticated `principal` (`None` when it carries none):
/// target operations go unchanged to their namespace-centric paths; relay-wide
/// identity administration and discovery are refused; an `up` or `down`
/// without a principal is refused; everything else goes to the per-bundle
/// dispatcher with its requester made bundle-local. (Whether the principal may
/// bring the bundle up or down is the dispatcher's policy check.)
pub fn handle_request_with_principal(
    request: RelayRequest,
    bundle_name: &str,
    principal: Option<&str>,
) -> (routed: Result<RequestRoute, RelayError>)
    ensures
        request is Send ==> (routed matches Ok(RequestRoute::SendRouted(r)) && r == request),
        request is Look ==> (routed matches Ok(RequestRoute::LookRouted(r)) && r == request),
        request is Raww ==> (routed matches Ok(RequestRoute::RawwRouted(r)) && r == request),
        is_relay_wide(request) ==> routed is Err && routed->Err_0@ == spec_relay_wide_refused(),
        (request is Up || request is Down) && principal is None ==> routed is Err
            && routed->Err_0@ == spec_missing_hello(),
        (request is Up || request is Down) && principal is Some ==> (routed matches Ok(
            RequestRoute::Bundle(r),
        ) && r == request),
        !(request is Send || request is Look || request is Raww || request is Up || request is Down
            || is_relay_wide(request)) ==> (routed matches Ok(RequestRoute::Bundle(r))
            && same_kind(r, request) && same_but_requester(r, request) && identity_view(r)
            == spec_normalized(request, bundle_name@)),
{
    match request {
        RelayRequest::Send { .. } => Ok(RequestRoute::SendRouted(request)),
        RelayRequest::Look { .. } => Ok(RequestRoute::LookRouted(request)),
        RelayRequest::Raww { .. } => Ok(RequestRoute::RawwRouted(request)),
        RelayRequest::NewPeer { .. }
        | RelayRequest::ChangePsk { .. }
        | RelayRequest::IdentityIntrospect { .. }
        | RelayRequest::ListRelays
        | RelayRequest::DiscoverNamespaces { .. }
        | RelayRequest::DiscoverPrincipals { .. } => Err(
            relay_error(
                "internal_unexpected_request",
                "relay-wide request reached the per-bundle dispatcher",
                None,
            ),
        ),
        RelayRequest::Up | RelayRequest::Down => match authorize_bundle_principal(principal) {
            Err(e) => Err(e),
            Ok(()) => Ok(RequestRoute::Bundle(request)),
        },
        other => Ok(RequestRoute::Bundle(normalize_request_identities(other, bundle_name))),
    }
}

/// Decides where a request for a configured bundle is served at the relay's
/// non-stream entry point, which carries no principal: as
/// `handle_request_with_principal` without one, so an `up` or `down` is
/// refused with `validation_missing_hello`.
pub fn handle_request(request: RelayRequest, bundle_name: &str) -> (routed: Result<
    RequestRoute,
    RelayError,
>)
    ensures
        request is Send ==> (routed matches Ok(RequestRoute::SendRouted(r)) && r == request),
        request is Look ==> (routed matches Ok(RequestRoute::LookRouted(r)) && r == request),
        request is Raww ==> (routed matches Ok(RequestRoute::RawwRouted(r)) && r == request),
        is_relay_wide(request) ==> routed is Err && routed->Err_0@ == spec_relay_wide_refused(),
        request is Up || request is Down ==> routed is Err && routed->Err_0@
            == spec_missing_hello(),
        !(request is Send || request is Look || request is Raww || request is Up || request is Down
            || is_relay_wide(request)) ==> (routed matches Ok(RequestRoute::Bundle(r))
            && same_kind(r, request) && same_but_requester(r, request) && identity_view(r)
            == spec_normalized(request, bundle_name@)),
{
    handle_request_with_principal(request, bundle_name, None)
}

} // verus!
