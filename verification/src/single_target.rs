//! The single-target operations, `look` and `raww`: the checks each runs
//! before its target is authorized, in the order the relay runs them, and
//! what a raww queues once its target is authorized.
//!
//! A look first checks the window it asks for, then who asked, then where the
//! target lives (the dispatch bundle, or a catalog bundle named by the
//! target's `@bundle` suffix), then that the target is a member there. A raww
//! target must be a member of its bundle whose transport takes raw input, as
//! the registry records it or, before registration, as configured.
use vstd::prelude::*;
use vstd::string::*;

use crate::configuration::{
    name_view, session_type_name, BundleConfiguration, BundleMember, MemberView, SessionType,
    UiSession,
};
use crate::delivery::results::{text_opt, AsyncDeliveryTask, DeliveryPayloadMode, QuiescenceOptions};
use crate::errors::{
    error_view, flag_detail, number_detail, one_detail, random_source_failed, relay_error,
    spec_random_source_failed, text_detail, text_field, unsupported_operation, RelayError,
    RelayErrorView,
};
use crate::groups::{catalog_position, copy_error, named_bundle, CatalogBundle};
use crate::identity::{canonical_session_id, spec_canonical, spec_classify, spec_split, PrincipalType};
use crate::operations::{
    find_look_target, find_member, member_id, raww_transport, raww_transport_name,
    resolve_look_target_bundle, resolve_sender_identity, validate_look_lines, RawwTransport,
    SenderIdentity, LOOK_LINES_MAX,
};
use crate::registry::{has_id, UnifiedRegistry};
use crate::send::{sender_view, spec_quiet_window, spec_sender};
use crate::seqs::first_index;
use crate::text::{copy_string_vec, str_eq};
use crate::clock::new_request_id;

verus! {

/// A look that passed its checks: who asked, the bundle its target lives in,
/// and the target member.
#[derive(Debug)]
pub struct LookPrepared {
    pub requester: SenderIdentity,
    pub bundle_name: String,
    pub target: BundleMember,
}

/// The error that refuses a look's window, if any.
pub open spec fn look_lines_error(lines: Option<usize>) -> Option<RelayErrorView> {
    match lines {
        Some(n) => if 1 <= n <= LOOK_LINES_MAX {
            None
        } else {
            Some(
                error_view(
                    "validation_invalid_lines"@,
                    "lines must be between 1 and 1000"@,
                    Some(
                        seq![
                            number_detail("lines"@, n as u64),
                            number_detail("min"@, 1),
                            number_detail("max"@, LOOK_LINES_MAX as u64),
                        ],
                    ),
                ),
            )
        },
        None => None,
    }
}

/// Where a look target lives, as (bundle name, session id): a
/// `session@bundle` target in that bundle, a bare one in the dispatch bundle;
/// a reserved relay-wide namespace is refused.
pub open spec fn look_target_location(dispatch: Seq<char>, target: Seq<char>) -> Result<
    (Seq<char>, Seq<char>),
    RelayErrorView,
> {
    match spec_classify(target) {
        Some(PrincipalType::Session) => Ok((spec_split(target).unwrap().1, spec_split(target).unwrap().0)),
        None => Ok((dispatch, target)),
        Some(_) => Err(
            error_view(
                "validation_unsupported_namespace"@,
                "look target namespace is reserved and names no inspectable session"@,
                Some(
                    seq![
                        text_detail("target_session"@, target),
                        text_detail("namespace"@, spec_split(target).unwrap().1),
                    ],
                ),
            ),
        ),
    }
}

/// The members of the bundle a look reads from: the dispatch bundle's own,
/// else those of the catalog bundle of that name; a name the catalog lacks is
/// an unknown bundle, and one that failed to load reports why.
pub open spec fn look_bundle_members(
    bundle: BundleConfiguration,
    catalog: Seq<CatalogBundle>,
    name: Seq<char>,
) -> Result<Seq<BundleMember>, RelayErrorView> {
    if name == bundle.bundle_name@ {
        Ok(bundle.members@)
    } else {
        let c = first_index(catalog, named_bundle(name));
        if c < 0 {
            Err(
                error_view(
                    "validation_unknown_bundle"@,
                    "look target bundle is not configured on this relay"@,
                    Some(seq![text_detail("bundle_name"@, name)]),
                ),
            )
        } else {
            match catalog[c].configuration {
                Ok(b) => Ok(b.members@),
                Err(e) => Err(e@),
            }
        }
    }
}

/// What a look's checks come to: the refusing error, or the requester, the
/// target's bundle, and the target member (its view and display name).
pub open spec fn spec_prepare_look(
    bundle: BundleConfiguration,
    ui_sessions: Seq<UiSession>,
    catalog: Seq<CatalogBundle>,
    requester: Seq<char>,
    target_session: Seq<char>,
    lines: Option<usize>,
) -> Result<
    ((Seq<char>, Option<Seq<char>>), Seq<char>, (MemberView, Option<Seq<char>>)),
    RelayErrorView,
> {
    match look_lines_error(lines) {
        Some(e) => Err(e),
        None => match spec_sender(bundle, ui_sessions, requester, "requester_session"@) {
            Err(e) => Err(e),
            Ok(sender) => match look_target_location(bundle.bundle_name@, target_session) {
                Err(e) => Err(e),
                Ok((name, id)) => match look_bundle_members(bundle, catalog, name) {
                    Err(e) => Err(e),
                    Ok(members) => {
                        let m = first_index(members, member_id(id));
                        if m < 0 {
                            Err(
                                error_view(
                                    "validation_unknown_target"@,
                                    "target_session is not in bundle configuration"@,
                                    Some(
                                        seq![
                                            text_detail("target_session"@, spec_canonical(id, name)),
                                        ],
                                    ),
                                ),
                            )
                        } else {
                            Ok((sender, name, (members[m]@, name_view(members[m].name))))
                        }
                    },
                },
            },
        },
    }
}

/// Runs a look's checks in order: its window, who asked, where its target
/// lives, and that the target is a member there.
pub fn prepare_look(
    bundle: &BundleConfiguration,
    ui_sessions: &Vec<UiSession>,
    catalog: &Vec<CatalogBundle>,
    requester_session: &str,
    target_session: &str,
    lines: Option<usize>,
) -> (prepared: Result<LookPrepared, RelayError>)
    ensures
        match spec_prepare_look(
            *bundle,
            ui_sessions@,
            catalog@,
            requester_session@,
            target_session@,
            lines,
        ) {
            Ok((sender, name, target)) => prepared is Ok && sender_view(prepared->Ok_0.requester)
                == sender && prepared->Ok_0.bundle_name@ == name && (prepared->Ok_0.target@,
            name_view(prepared->Ok_0.target.name)) == target,
            Err(e) => prepared is Err && prepared->Err_0@ == e,
        },
{
    match validate_look_lines(lines) {
        Err(e) => return Err(e),
        Ok(()) => {},
    }
    let requester = match resolve_sender_identity(
        bundle,
        ui_sessions,
        requester_session,
        "requester_session",
    ) {
        Err(e) => return Err(e),
        Ok(s) => s,
    };
    proof {
        let m = first_index(bundle.members@, member_id(requester_session@));
        if m >= 0 {
            crate::seqs::lemma_first_index(bundle.members@, member_id(requester_session@));
        }
    }
    let (name, id) = match resolve_look_target_bundle(bundle.bundle_name.as_str(), target_session) {
        Err(e) => return Err(e),
        Ok(parts) => parts,
    };
    if str_eq(name.as_str(), bundle.bundle_name.as_str()) {
        let i = match find_look_target(bundle, id.as_str(), name.as_str()) {
            Err(e) => return Err(e),
            Ok(i) => i,
        };
        proof {
            crate::seqs::lemma_first_index(bundle.members@, member_id(id@));
        }
        let target = bundle.members[i].copy();
        return Ok(LookPrepared { requester, bundle_name: name, target });
    }
    let c = match catalog_position(catalog, name.as_str()) {
        None => {
            return Err(
                relay_error(
                    "validation_unknown_bundle",
                    "look target bundle is not configured on this relay",
                    one_detail(text_field("bundle_name", name.as_str())),
                ),
            );
        },
        Some(c) => c,
    };
    match &catalog[c].configuration {
        Err(e) => Err(copy_error(e)),
        Ok(look_bundle) => {
            let i = match find_look_target(look_bundle, id.as_str(), name.as_str()) {
                Err(e) => return Err(e),
                Ok(i) => i,
            };
            proof {
                crate::seqs::lemma_first_index(look_bundle.members@, member_id(id@));
            }
            let target = look_bundle.members[i].copy();
            Ok(LookPrepared { requester, bundle_name: name, target })
        },
    }
}

/// A session type whose transport takes raw input.
pub open spec fn spec_can_be_written(session_type: SessionType) -> bool {
    !(session_type == SessionType::Ui || session_type == SessionType::Pubsub)
}

/// Whether a session type's transport takes raw input: UI and pubsub
/// sessions take none.
pub fn can_be_written(session_type: SessionType) -> (writable: bool)
    ensures
        writable == spec_can_be_written(session_type),
{
    match session_type {
        SessionType::Ui | SessionType::Pubsub => false,
        _ => true,
    }
}

/// The session type the registry records under `principal_id`, if any.
pub open spec fn registered_type(registry: UnifiedRegistry, principal_id: Seq<char>) -> Option<
    SessionType,
> {
    let i = first_index(registry.entries(), has_id(principal_id));
    if i >= 0 {
        Some(registry.entries()[i].session_type)
    } else {
        None
    }
}

/// What a raww target in `bundle` (named `namespace`) comes to: its member
/// position, or the error refusing it.
pub open spec fn spec_raww_target(
    bundle: BundleConfiguration,
    namespace: Seq<char>,
    target_session_id: Seq<char>,
    registry: UnifiedRegistry,
) -> Result<int, RelayErrorView> {
    let m = first_index(bundle.members@, member_id(target_session_id));
    let principal = spec_canonical(target_session_id, namespace);
    if m < 0 {
        Err(
            error_view(
                "validation_unknown_target"@,
                "target_session is not a canonical configured target identifier"@,
                Some(seq![text_detail("target_session"@, principal)]),
            ),
        )
    } else {
        let session_type = match registered_type(registry, principal) {
            Some(t) => t,
            None => bundle.members@[m].target,
        };
        if spec_can_be_written(session_type) {
            Ok(m)
        } else {
            Err(
                error_view(
                    "validation_unsupported_operation"@,
                    "target transport does not support this operation"@,
                    Some(
                        seq![
                            text_detail("target_session"@, principal),
                            text_detail("session_type"@, session_type_name(session_type)),
                            flag_detail("can_be_written"@, false),
                        ],
                    ),
                ),
            )
        }
    }
}

/// The member a raww targets in `bundle`, refused when it is not configured
/// there or when its transport, as registered (else as configured), takes no
/// raw input.
pub fn check_raww_target(
    bundle: &BundleConfiguration,
    namespace: &str,
    target_session_id: &str,
    registry: &UnifiedRegistry,
) -> (found: Result<usize, RelayError>)
    ensures
        match spec_raww_target(*bundle, namespace@, target_session_id@, *registry) {
            Ok(m) => found is Ok && found->Ok_0 as int == m && m < bundle.members@.len(),
            Err(e) => found is Err && found->Err_0@ == e,
        },
{
    let principal = canonical_session_id(target_session_id, namespace);
    let m = match find_member(bundle, target_session_id) {
        None => {
            return Err(
                relay_error(
                    "validation_unknown_target",
                    "target_session is not a canonical configured target identifier",
                    one_detail(text_field("target_session", principal.as_str())),
                ),
            );
        },
        Some(m) => m,
    };
    let session_type = match registry.lookup_session_type(principal.as_str()) {
        Some(t) => t,
        None => bundle.members[m].target,
    };
    if !can_be_written(session_type) {
        return Err(unsupported_operation(principal.as_str(), session_type, "can_be_written"));
    }
    Ok(m)
}

/// The relay's answer to a raww it queued.
#[derive(Debug)]
pub struct RawwQueued {
    pub status: String,
    pub target_session: String,
    pub transport: RawwTransport,
    pub request_id: Option<String>,
    pub message_id: String,
}

/// Queues a raww to the member at `target` of `bundle`: one raw-input task,
/// with no verified attribution, entering the text unless `no_enter`, under a
/// fresh message id; the answer reports it `queued` with the target's
/// canonical id and transport; when the random source gives no message id,
/// nothing is queued and the random-source error is returned. The task is delivered in the target bundle's
/// `runtime_directory`, with the UI sessions the target's authorization lets
/// decide its choices; a raw write routes no receipt back. A target whose
/// configured session type has no raw-input transport is refused.
pub fn execute_raww(
    bundle: &BundleConfiguration,
    target: usize,
    sender: &SenderIdentity,
    home_namespace: &str,
    text: String,
    no_enter: bool,
    request_id: Option<String>,
    runtime_directory: &str,
    choice_decider_sessions: &Vec<String>,
) -> (queued: Result<(AsyncDeliveryTask, RawwQueued), RelayError>)
    requires
        target < bundle.members@.len(),
    ensures
        ({
            let member = bundle.members@[target as int];
            let canonical = spec_canonical(member.id@, bundle.bundle_name@);
            &&& (member.target == SessionType::Ui || member.target == SessionType::Pubsub)
                ==> queued is Err && queued->Err_0@ == error_view(
                "runtime_session_type_not_implemented"@,
                "session type delivery is not yet implemented"@,
                Some(
                    seq![
                        text_detail("session_id"@, member.id@),
                        text_detail("session_type"@, session_type_name(member.target)),
                    ],
                ),
            )
            &&& !(member.target == SessionType::Ui || member.target == SessionType::Pubsub)
                && queued is Err ==> queued->Err_0@ == spec_random_source_failed()
            &&& !(member.target == SessionType::Ui || member.target == SessionType::Pubsub)
                && queued is Ok ==> {
                let task = queued->Ok_0.0;
                let answer = queued->Ok_0.1;
                &&& task.bundle_name@ == bundle.bundle_name@
                &&& task.sender_namespace@ == home_namespace@
                &&& task.sender_session@ == sender.session_id@
                &&& name_view(task.sender_display_name) == name_view(sender.display_name)
                &&& task.authenticated_identity is None
                &&& task.on_behalf_of is None
                &&& task.all_target_sessions@.map_values(|s: String| s@) == seq![canonical]
                &&& task.target_session@ == member.id@
                &&& !task.target_is_ui
                &&& task.message@ == text@
                &&& task.quiescence.quiet_window_ms == spec_quiet_window(None)
                &&& task.payload_mode == DeliveryPayloadMode::RawInput
                &&& task.append_enter == !no_enter
                &&& !task.is_receipt
                &&& task.runtime_directory@ == runtime_directory@
                &&& task.choice_decider_sessions@.map_values(|s: String| s@)
                    == choice_decider_sessions@.map_values(|s: String| s@)
                &&& task.sender_return_route is None
                &&& answer.status@ == "queued"@
                &&& answer.target_session@ == canonical
                &&& (member.target == SessionType::Tmux ==> answer.transport == RawwTransport::Tmux)
                &&& (member.target == SessionType::Acp ==> answer.transport == RawwTransport::Acp)
                &&& (member.target == SessionType::Pty ==> answer.transport == RawwTransport::Pty)
                &&& text_opt(answer.request_id) == text_opt(request_id)
                &&& answer.message_id@ == task.message_id@
            }
        }),
{
    let member = &bundle.members[target];
    let transport = match raww_transport(member) {
        Err(e) => return Err(e),
        Ok(t) => t,
    };
    let canonical = canonical_session_id(member.id.as_str(), bundle.bundle_name.as_str());
    let mut recipients: Vec<String> = Vec::new();
    recipients.push(canonical.clone());
    assert(recipients@.map_values(|s: String| s@) =~= seq![canonical@]);
    let message_id = match new_request_id() {
        Some(id) => id,
        None => return Err(random_source_failed()),
    };
    let task = AsyncDeliveryTask {
        bundle_name: bundle.bundle_name.clone(),
        sender_namespace: String::from_str(home_namespace),
        sender_session: sender.session_id.clone(),
        sender_display_name: match &sender.display_name {
            None => None,
            Some(n) => Some(n.clone()),
        },
        authenticated_identity: None,
        on_behalf_of: None,
        all_target_sessions: recipients,
        target_session: member.id.clone(),
        target_is_ui: false,
        message_id: message_id.clone(),
        message: text,
        quiescence: QuiescenceOptions::for_async(None),
        payload_mode: DeliveryPayloadMode::RawInput,
        append_enter: !no_enter,
        is_receipt: false,
        runtime_directory: String::from_str(runtime_directory),
        choice_decider_sessions: copy_string_vec(choice_decider_sessions),
        sender_return_route: None,
    };
    let answer = RawwQueued {
        status: String::from_str("queued"),
        target_session: canonical,
        transport,
        request_id,
        message_id,
    };
    Ok((task, answer))
}

/// Every session type but UI and pubsub takes raw input: tmux, ACP and pty
/// targets can be written, so a raww to a configured member of one of those
/// types (registered under no other type) resolves to that member.
pub proof fn lemma_raw_input_targets(
    bundle: BundleConfiguration,
    namespace: Seq<char>,
    target_session_id: Seq<char>,
    registry: UnifiedRegistry,
)
    ensures
        spec_can_be_written(SessionType::Tmux),
        spec_can_be_written(SessionType::Acp),
        spec_can_be_written(SessionType::Pty),
        !spec_can_be_written(SessionType::Ui),
        !spec_can_be_written(SessionType::Pubsub),
        ({
            let m = first_index(bundle.members@, member_id(target_session_id));
            let principal = spec_canonical(target_session_id, namespace);
            m >= 0 && registered_type(registry, principal) is None && (bundle.members@[m].target
                == SessionType::Tmux || bundle.members@[m].target == SessionType::Acp
                || bundle.members@[m].target == SessionType::Pty) ==> spec_raww_target(
                bundle,
                namespace,
                target_session_id,
                registry,
            ) == Ok::<int, RelayErrorView>(m)
        }),
{
}

} // verus!
