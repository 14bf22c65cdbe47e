//! The request checks of the target operations (`send`, `look`, `raww`):
//! who the requester is, where a target lives, what window a look reads, and
//! how a raww's dispatch result is answered. Delivery, capture and
//! authorization are the host's; each check here runs where the original
//! order of the operation puts it.
use vstd::prelude::*;
use vstd::string::*;
use vstd::utf8::encode_utf8;

use crate::configuration::{
    name_view, session_type_name, BundleConfiguration, BundleMember, SessionType, UiSession,
};
use crate::delivery::guard::SendOutcome;
use crate::delivery::results::{text_opt, SendResult};
use crate::errors::{
    error_view, flag_detail, number_detail, number_field, one_detail, relay_error,
    session_type_not_implemented, text_detail, text_field, three_details, two_details, Detail,
    DetailValue, DetailValueView, DetailView, RelayError, RelayErrorView,
};
use crate::identity::{
    canonical_session_id, classify_principal_id, spec_canonical, spec_classify, spec_split,
    split_principal_id, PrincipalType,
};
use crate::seqs::{first_index, lemma_first_index, lemma_first_index_is};
use crate::text::{is_blank, is_blank_seq, owned, str_eq};

verus! {

/// Who sent a request: a bundle member, or a declared relay-wide UI session.
#[derive(Debug)]
pub struct SenderIdentity {
    pub session_id: String,
    pub display_name: Option<String>,
}

/// The window a look reads.
#[derive(Clone, Copy, Debug, PartialEq, Eq, Structural)]
pub enum LookWindow {
    /// The last `lines` lines of a tmux pane.
    Lines(usize),
    /// `entries` ACP replay entries, `offset` back from the newest.
    AcpEntries { entries: usize, offset: usize },
}

/// How a raww target is reached.
#[derive(Clone, Copy, Debug, PartialEq, Eq, Structural)]
pub enum RawwTransport {
    Tmux,
    Acp,
    Pty,
}

/// A raww the target's transport accepted.
#[derive(Debug)]
pub struct RawwAccepted {
    pub status: String,
    pub target_session: String,
    pub transport: RawwTransport,
    pub delivery_phase: String,
}

/// The most lines (or ACP entries) a look may ask for.
pub const LOOK_LINES_MAX: usize = 1000;

/// The lines a tmux look reads when the request names none.
pub const LOOK_LINES_DEFAULT: usize = 120;

/// The ACP entries a look reads when the request names none.
pub const ACP_LOOK_ENTRIES_DEFAULT: usize = 50;

/// The largest raww text, in bytes.
pub const RAWW_TEXT_MAX_BYTES: usize = 32768;

pub open spec fn member_id(id: Seq<char>) -> spec_fn(BundleMember) -> bool {
    |m: BundleMember| m.id@ == id
}

pub open spec fn ui_id(id: Seq<char>) -> spec_fn(UiSession) -> bool {
    |u: UiSession| u.id@ == id
}

/// The position of the member named `id`, if any.
pub fn find_member(bundle: &BundleConfiguration, id: &str) -> (found: Option<usize>)
    ensures
        match found {
            Some(i) => i as int == first_index(bundle.members@, member_id(id@)) && i
                < bundle.members@.len(),
            None => first_index(bundle.members@, member_id(id@)) == -1,
        },
{
    let mut i: usize = 0;
    while i < bundle.members.len()
        invariant
            i <= bundle.members@.len(),
            forall|j: int| 0 <= j < i ==> !member_id(id@)(#[trigger] bundle.members@[j]),
        decreases bundle.members@.len() - i,
    {
        if str_eq(bundle.members[i].id.as_str(), id) {
            proof {
                lemma_first_index_is(bundle.members@, member_id(id@), i as int);
            }
            return Some(i);
        }
        i = i + 1;
    }
    proof {
        lemma_first_index(bundle.members@, member_id(id@));
    }
    None
}

/// The position of the UI session named `id`, if any.
pub fn find_ui_session(ui_sessions: &Vec<UiSession>, id: &str) -> (found: Option<usize>)
    ensures
        match found {
            Some(i) => i as int == first_index(ui_sessions@, ui_id(id@)) && i < ui_sessions@.len(),
            None => first_index(ui_sessions@, ui_id(id@)) == -1,
        },
{
    let mut i: usize = 0;
    while i < ui_sessions.len()
        invariant
            i <= ui_sessions@.len(),
            forall|j: int| 0 <= j < i ==> !ui_id(id@)(#[trigger] ui_sessions@[j]),
        decreases ui_sessions@.len() - i,
    {
        if str_eq(ui_sessions[i].id.as_str(), id) {
            proof {
                lemma_first_index_is(ui_sessions@, ui_id(id@), i as int);
            }
            return Some(i);
        }
        i = i + 1;
    }
    proof {
        lemma_first_index(ui_sessions@, ui_id(id@));
    }
    None
}

fn copy_name(name: &Option<String>) -> (copy: Option<String>)
    ensures
        name_view(copy) == name_view(*name),
{
    match name {
        None => None,
        Some(n) => Some(n.clone()),
    }
}

/// Resolves who sent a request: the bundle member named `sender_session`,
/// else the declared UI session of that id, else an unknown-sender error
/// naming the request field that carried it.
pub fn resolve_sender_identity(
    bundle: &BundleConfiguration,
    ui_sessions: &Vec<UiSession>,
    sender_session: &str,
    detail_field: &str,
) -> (sender: Result<SenderIdentity, RelayError>)
    ensures
        ({
            let m = first_index(bundle.members@, member_id(sender_session@));
            let u = first_index(ui_sessions@, ui_id(sender_session@));
            &&& m >= 0 ==> sender is Ok && sender->Ok_0.session_id@ == bundle.members@[m].id@
                && name_view(sender->Ok_0.display_name) == name_view(bundle.members@[m].name)
            &&& m < 0 && u >= 0 ==> sender is Ok && sender->Ok_0.session_id@ == sender_session@
                && name_view(sender->Ok_0.display_name) == name_view(ui_sessions@[u].display_name)
            &&& m < 0 && u < 0 ==> sender is Err && sender->Err_0@ == error_view(
                "validation_unknown_sender"@,
                "sender session is not configured"@,
                Some(
                    seq![
                        text_detail("field"@, detail_field@),
                        text_detail("value"@, sender_session@),
                    ],
                ),
            )
        }),
{
    if let Some(i) = find_member(bundle, sender_session) {
        let member: &BundleMember = &bundle.members[i];
        return Ok(
            SenderIdentity { session_id: member.id.clone(), display_name: copy_name(&member.name) },
        );
    }
    if let Some(k) = find_ui_session(ui_sessions, sender_session) {
        return Ok(
            SenderIdentity {
                session_id: owned(sender_session),
                display_name: copy_name(&ui_sessions[k].display_name),
            },
        );
    }
    Err(
        relay_error(
            "validation_unknown_sender",
            "sender session is not configured",
            two_details(text_field("field", detail_field), text_field("value", sender_session)),
        ),
    )
}

/// Where a look target lives: a `session@bundle` target in that bundle; a
/// bare target in the dispatch bundle; a target in a reserved relay-wide
/// namespace is refused, since it names no inspectable session.
pub fn resolve_look_target_bundle(dispatch_bundle_name: &str, target_session: &str) -> (resolved:
    Result<(String, String), RelayError>)
    ensures
        spec_classify(target_session@) == Some(PrincipalType::Session) ==> resolved is Ok
            && resolved->Ok_0.0@ == spec_split(target_session@).unwrap().1 && resolved->Ok_0.1@
            == spec_split(target_session@).unwrap().0,
        spec_classify(target_session@) is None ==> resolved is Ok && resolved->Ok_0.0@
            == dispatch_bundle_name@ && resolved->Ok_0.1@ == target_session@,
        spec_classify(target_session@) is Some && spec_classify(target_session@) != Some(
            PrincipalType::Session,
        ) ==> resolved is Err && resolved->Err_0@ == error_view(
            "validation_unsupported_namespace"@,
            "look target namespace is reserved and names no inspectable session"@,
            Some(
                seq![
                    text_detail("target_session"@, target_session@),
                    text_detail("namespace"@, spec_split(target_session@).unwrap().1),
                ],
            ),
        ),
{
    match classify_principal_id(target_session) {
        Some(PrincipalType::Session) => {
            let parts = split_principal_id(target_session);
            match parts {
                Some((session_id, bundle_name)) => Ok((owned(bundle_name), owned(session_id))),
                None => Ok((owned(dispatch_bundle_name), owned(target_session))),
            }
        },
        Some(_) => {
            let namespace = match split_principal_id(target_session) {
                Some((_, namespace)) => namespace,
                None => "",
            };
            Err(
                relay_error(
                    "validation_unsupported_namespace",
                    "look target namespace is reserved and names no inspectable session",
                    two_details(
                        text_field("target_session", target_session),
                        text_field("namespace", namespace),
                    ),
                ),
            )
        },
        None => Ok((owned(dispatch_bundle_name), owned(target_session))),
    }
}

/// Refuses a look asking for a window outside `1..=1000`.
pub fn validate_look_lines(lines: Option<usize>) -> (checked: Result<(), RelayError>)
    ensures
        match lines {
            Some(n) => if 1 <= n <= LOOK_LINES_MAX {
                checked is Ok
            } else {
                checked is Err && checked->Err_0@ == error_view(
                    "validation_invalid_lines"@,
                    "lines must be between 1 and 1000"@,
                    Some(
                        seq![
                            number_detail("lines"@, n as u64),
                            number_detail("min"@, 1),
                            number_detail("max"@, LOOK_LINES_MAX as u64),
                        ],
                    ),
                )
            },
            None => checked is Ok,
        },
{
    if let Some(n) = lines {
        if n < 1 || n > LOOK_LINES_MAX {
            return Err(
                relay_error(
                    "validation_invalid_lines",
                    "lines must be between 1 and 1000",
                    three_details(
                        number_field("lines", n as u64),
                        number_field("min", 1),
                        number_field("max", LOOK_LINES_MAX as u64),
                    ),
                ),
            );
        }
    }
    Ok(())
}

/// The member a look targets, or an unknown-target error naming the target
/// by its canonical id.
pub fn find_look_target(
    look_bundle: &BundleConfiguration,
    target_session_id: &str,
    target_bundle_name: &str,
) -> (found: Result<usize, RelayError>)
    ensures
        found is Ok ==> found->Ok_0 as int == first_index(
            look_bundle.members@,
            member_id(target_session_id@),
        ) && found->Ok_0 < look_bundle.members@.len(),
        first_index(look_bundle.members@, member_id(target_session_id@)) >= 0 ==> found
            == Ok::<usize, RelayError>(
            first_index(look_bundle.members@, member_id(target_session_id@)) as usize,
        ),
        first_index(look_bundle.members@, member_id(target_session_id@)) < 0 ==> found is Err
            && found->Err_0@ == error_view(
            "validation_unknown_target"@,
            "target_session is not in bundle configuration"@,
            Some(
                seq![
                    text_detail(
                        "target_session"@,
                        spec_canonical(target_session_id@, target_bundle_name@),
                    ),
                ],
            ),
        ),
{
    match find_member(look_bundle, target_session_id) {
        Some(i) => Ok(i),
        None => {
            let canonical = canonical_session_id(target_session_id, target_bundle_name);
            Err(
                relay_error(
                    "validation_unknown_target",
                    "target_session is not in bundle configuration",
                    one_detail(text_field("target_session", canonical.as_str())),
                ),
            )
        },
    }
}

/// The window a look reads from its target: tmux reads lines and takes no
/// offset; ACP reads replay entries from an offset; UI and pubsub targets
/// have nothing to read. Each kind has its own default window size.
pub fn look_window(target: &BundleMember, lines: Option<usize>, offset: Option<usize>) -> (window:
    Result<LookWindow, RelayError>)
    ensures
        ({
            let off = match offset {
                Some(o) => o,
                None => 0,
            };
            &&& target.target == SessionType::Tmux && off != 0 ==> window is Err
                && window->Err_0@ == error_view(
                "validation_offset_unsupported"@,
                "offset is only supported for ACP look targets"@,
                Some(
                    seq![
                        text_detail("target_session"@, target.id@),
                        number_detail("offset"@, off as u64),
                    ],
                ),
            )
            &&& target.target == SessionType::Tmux && off == 0 ==> window == Ok::<
                LookWindow,
                RelayError,
            >(
                LookWindow::Lines(
                    match lines {
                        Some(n) => n,
                        None => LOOK_LINES_DEFAULT,
                    },
                ),
            )
            &&& target.target == SessionType::Acp ==> window == Ok::<LookWindow, RelayError>(
                LookWindow::AcpEntries {
                    entries: match lines {
                        Some(n) => n,
                        None => ACP_LOOK_ENTRIES_DEFAULT,
                    },
                    offset: off,
                },
            )
            &&& (target.target == SessionType::Ui || target.target == SessionType::Pubsub
                || target.target == SessionType::Pty) ==> window is Err && window->Err_0@
                == error_view(
                "runtime_session_type_not_implemented"@,
                "session type delivery is not yet implemented"@,
                Some(
                    seq![
                        text_detail("session_id"@, target.id@),
                        text_detail("session_type"@, session_type_name(target.target)),
                    ],
                ),
            )
        }),
{
    let off = match offset {
        Some(o) => o,
        None => 0,
    };
    match target.target {
        SessionType::Tmux => {
            if off != 0 {
                return Err(
                    relay_error(
                        "validation_offset_unsupported",
                        "offset is only supported for ACP look targets",
                        two_details(
                            text_field("target_session", target.id.as_str()),
                            number_field("offset", off as u64),
                        ),
                    ),
                );
            }
            Ok(
                LookWindow::Lines(
                    match lines {
                        Some(n) => n,
                        None => LOOK_LINES_DEFAULT,
                    },
                ),
            )
        },
        SessionType::Acp => Ok(
            LookWindow::AcpEntries {
                entries: match lines {
                    Some(n) => n,
                    None => ACP_LOOK_ENTRIES_DEFAULT,
                },
                offset: off,
            },
        ),
        _ => Err(session_type_not_implemented(target.id.as_str(), target.target)),
    }
}

/// Refuses a raww with a blank target or a text over the byte limit.
pub fn validate_raww_request(target_session: &str, text: &str) -> (checked: Result<(), RelayError>)
    ensures
        is_blank_seq(target_session@) ==> checked is Err && checked->Err_0@ == error_view(
            "validation_invalid_params"@,
            "target_session must be non-empty"@,
            Some(seq![text_detail("field"@, "target_session"@)]),
        ),
        !is_blank_seq(target_session@) && text.len() > RAWW_TEXT_MAX_BYTES
            ==> checked is Err && checked->Err_0@ == error_view(
            "validation_invalid_params"@,
            "raww text exceeds maximum size of 32 KiB"@,
            Some(
                seq![
                    text_detail("field"@, "text"@),
                    number_detail("max_bytes"@, RAWW_TEXT_MAX_BYTES as u64),
                    number_detail("bytes"@, text.len() as u64),
                ],
            ),
        ),
        !is_blank_seq(target_session@) && text.len() <= RAWW_TEXT_MAX_BYTES
            ==> checked is Ok,
{
    if is_blank(target_session) {
        return Err(
            relay_error(
                "validation_invalid_params",
                "target_session must be non-empty",
                one_detail(text_field("field", "target_session")),
            ),
        );
    }
    let bytes = text.len();
    if bytes > RAWW_TEXT_MAX_BYTES {
        return Err(
            relay_error(
                "validation_invalid_params",
                "raww text exceeds maximum size of 32 KiB",
                three_details(
                    text_field("field", "text"),
                    number_field("max_bytes", RAWW_TEXT_MAX_BYTES as u64),
                    number_field("bytes", bytes as u64),
                ),
            ),
        );
    }
    Ok(())
}

/// The member a raww targets: a configured member; a declared UI session is
/// refused as an unsupported target class; anything else is unknown.
pub fn raww_target(bundle: &BundleConfiguration, ui_sessions: &Vec<UiSession>, target_session: &str) -> (found:
    Result<usize, RelayError>)
    ensures
        ({
            let m = first_index(bundle.members@, member_id(target_session@));
            let u = first_index(ui_sessions@, ui_id(target_session@));
            &&& m >= 0 ==> found == Ok::<usize, RelayError>(m as usize)
            &&& m < 0 && u >= 0 ==> found is Err && found->Err_0@ == error_view(
                "validation_invalid_params"@,
                "raww target class is not supported"@,
                Some(
                    seq![
                        text_detail("target_session"@, target_session@),
                        text_detail("target_class"@, "ui"@),
                        DetailView {
                            key: "supported_target_classes"@,
                            value: DetailValueView::Texts(seq!["tmux"@, "acp"@]),
                        },
                    ],
                ),
            )
            &&& m < 0 && u < 0 ==> found is Err && found->Err_0@ == error_view(
                "validation_unknown_target"@,
                "target_session is not a canonical configured target identifier"@,
                Some(seq![text_detail("target_session"@, target_session@)]),
            )
        }),
{
    if let Some(i) = find_member(bundle, target_session) {
        return Ok(i);
    }
    if find_ui_session(ui_sessions, target_session).is_some() {
        let mut classes: Vec<String> = Vec::new();
        classes.push(String::from_str("tmux"));
        classes.push(String::from_str("acp"));
        assert(classes@.map_values(|s: String| s@) =~= seq!["tmux"@, "acp"@]);
        return Err(
            relay_error(
                "validation_invalid_params",
                "raww target class is not supported",
                three_details(
                    text_field("target_session", target_session),
                    text_field("target_class", "ui"),
                    Detail {
                        key: String::from_str("supported_target_classes"),
                        value: DetailValue::Texts(classes),
                    },
                ),
            ),
        );
    }
    Err(
        relay_error(
            "validation_unknown_target",
            "target_session is not a canonical configured target identifier",
            one_detail(text_field("target_session", target_session)),
        ),
    )
}

pub open spec fn raww_transport_name(transport: RawwTransport) -> Seq<char> {
    match transport {
        RawwTransport::Tmux => "tmux"@,
        RawwTransport::Acp => "acp"@,
        RawwTransport::Pty => "pty"@,
    }
}

impl RawwTransport {
    /// The transport's wire name.
    pub fn as_str(self) -> (name: &'static str)
        ensures
            name@ == raww_transport_name(self),
    {
        match self {
            RawwTransport::Tmux => "tmux",
            RawwTransport::Acp => "acp",
            RawwTransport::Pty => "pty",
        }
    }
}

/// How a raww reaches its target: tmux, ACP and PTY targets have a
/// transport that takes raw input; UI and pubsub sessions have none.
pub fn raww_transport(target: &BundleMember) -> (transport: Result<RawwTransport, RelayError>)
    ensures
        target.target == SessionType::Tmux ==> transport == Ok::<RawwTransport, RelayError>(
            RawwTransport::Tmux,
        ),
        target.target == SessionType::Acp ==> transport == Ok::<RawwTransport, RelayError>(
            RawwTransport::Acp,
        ),
        target.target == SessionType::Pty ==> transport == Ok::<RawwTransport, RelayError>(
            RawwTransport::Pty,
        ),
        (target.target == SessionType::Ui || target.target == SessionType::Pubsub)
            ==> transport is Err && transport->Err_0@ == error_view(
            "runtime_session_type_not_implemented"@,
            "session type delivery is not yet implemented"@,
            Some(
                seq![
                    text_detail("session_id"@, target.id@),
                    text_detail("session_type"@, session_type_name(target.target)),
                ],
            ),
        ),
{
    match target.target {
        SessionType::Tmux => Ok(RawwTransport::Tmux),
        SessionType::Acp => Ok(RawwTransport::Acp),
        SessionType::Pty => Ok(RawwTransport::Pty),
        _ => Err(session_type_not_implemented(target.id.as_str(), target.target)),
    }
}

/// A detail holding text, or null when absent.
pub open spec fn opt_text_detail(key: Seq<char>, value: Option<Seq<char>>) -> DetailView {
    DetailView {
        key,
        value: match value {
            None => DetailValueView::Null,
            Some(v) => DetailValueView::Text(v),
        },
    }
}

/// How a raww's dispatch result is answered: a delivered write is accepted,
/// dispatched for tmux and in progress for ACP; anything else is an error,
/// reported as the target being unavailable when its ACP worker was, and as a
/// failed transport write otherwise.
pub fn raww_dispatch_outcome(
    result: SendResult,
    transport: RawwTransport,
    canonical_target: String,
) -> (answered: Result<RawwAccepted, RelayError>)
    ensures
        result.outcome == SendOutcome::Delivered ==> answered is Ok && answered->Ok_0.status@
            == "accepted"@ && answered->Ok_0.target_session@ == canonical_target@
            && answered->Ok_0.transport == transport && answered->Ok_0.delivery_phase@ == (
        if transport == RawwTransport::Acp {
            "accepted_in_progress"@
        } else {
            "accepted_dispatched"@
        }),
        result.outcome != SendOutcome::Delivered ==> answered is Err && answered->Err_0@
            == error_view(
            if text_opt(result.reason_code) == Some("runtime_acp_worker_unavailable"@) {
                "runtime_target_unavailable"@
            } else {
                "runtime_transport_write_failed"@
            },
            "raww dispatch failed"@,
            Some(
                seq![
                    text_detail("target_session"@, result.target_session@),
                    text_detail("transport"@, raww_transport_name(transport)),
                    text_detail(
                        "reason"@,
                        match text_opt(result.reason) {
                            Some(r) => r,
                            None => "raww dispatch failed"@,
                        },
                    ),
                    opt_text_detail("reason_code"@, text_opt(result.reason_code)),
                ],
            ),
        ),
{
    if result.outcome != SendOutcome::Delivered {
        let unavailable = match &result.reason_code {
            Some(code) => str_eq(code.as_str(), "runtime_acp_worker_unavailable"),
            None => false,
        };
        let reason = match result.reason {
            Some(r) => r,
            None => String::from_str("raww dispatch failed"),
        };
        let code_detail = match result.reason_code {
            Some(c) => Detail { key: String::from_str("reason_code"), value: DetailValue::Text(c) },
            None => Detail { key: String::from_str("reason_code"), value: DetailValue::Null },
        };
        let mut details: Vec<Detail> = Vec::new();
        details.push(
            Detail {
                key: String::from_str("target_session"),
                value: DetailValue::Text(result.target_session),
            },
        );
        details.push(text_field("transport", transport.as_str()));
        details.push(Detail { key: String::from_str("reason"), value: DetailValue::Text(reason) });
        details.push(code_detail);
        assert(details@.map_values(|d: Detail| d@) =~= seq![
            text_detail("target_session"@, result.target_session@),
            text_detail("transport"@, raww_transport_name(transport)),
            text_detail(
                "reason"@,
                match text_opt(result.reason) {
                    Some(r) => r,
                    None => "raww dispatch failed"@,
                },
            ),
            opt_text_detail("reason_code"@, text_opt(result.reason_code)),
        ]);
        let code = if unavailable {
            "runtime_target_unavailable"
        } else {
            "runtime_transport_write_failed"
        };
        let error = relay_error(code, "raww dispatch failed", Some(details));
        return Err(error);
    }
    let delivery_phase = if transport == RawwTransport::Acp {
        String::from_str("accepted_in_progress")
    } else {
        String::from_str("accepted_dispatched")
    };
    Ok(
        RawwAccepted {
            status: String::from_str("accepted"),
            target_session: canonical_target,
            transport,
            delivery_phase,
        },
    )
}

} // verus!
