//! Sending a message: the checks a send passes before anything is queued, in
//! the order the relay runs them, and the tasks and queued results it turns
//! into once it passed.
//!
//! A send names a non-blank message and either explicit targets or a
//! broadcast, never both; its requester must be a member of its bundle or a
//! declared UI session. A broadcast goes to every other member of the
//! sender's bundle; explicit targets resolve into per-bundle groups. Every
//! target then gets one task and one `queued` result, in group order, and
//! every task names all the recipients by canonical id.
//!
//! A request whose authenticated principal is a peer relay arrives over
//! cross-relay ingress: it is resolved in the `RELAY` namespace, only it may
//! carry an origin attribution (`on_behalf_of`), and it may not name a target
//! on another relay.
use vstd::prelude::*;
use vstd::string::*;

use crate::clock::new_request_id;
use crate::configuration::{name_view, BundleConfiguration, BundleMember, MemberView, UiSession};
use crate::cross_relay::{broadcast_targets, validate_send_request};
use crate::delivery::guard::SendOutcome;
use crate::delivery::results::{
    copy_route, queued_result, result_view, route_view, text_opt, AsyncDeliveryTask,
    DeliveryPayloadMode, QuiescenceOptions, SendResult, SenderReturnRoute,
    QUIET_WINDOW_MS_DEFAULT,
};
use crate::errors::{
    error_view, number_detail, random_source_failed, relay_error, spec_random_source_failed,
    text_detail, RelayError, RelayErrorView,
};
use crate::groups::{
    groups_view, resolve_target_groups, spec_resolve_target_groups, CatalogBundle, DeliveryGroup,
    GroupView, ResolvedTarget, TargetView,
};
use crate::identity::{
    bare_session_id, canonical_session_id, classify_principal_id, relay_namespace, spec_bare,
    spec_canonical, spec_classify, PrincipalType,
};
use crate::operations::{
    member_id, resolve_sender_identity, ui_id, validate_raww_request, SenderIdentity,
    RAWW_TEXT_MAX_BYTES,
};
use crate::seqs::{first_index, lemma_first_index, lemma_first_index_is};
use crate::text::{copy_string_vec, is_blank_seq, str_eq};

verus! {

/// A send that passed every check: who sent it, and the groups its targets
/// resolved to.
#[derive(Debug)]
pub struct PreparedSend {
    pub sender: SenderIdentity,
    pub groups: Vec<DeliveryGroup>,
}

/// The relay's answer to a send whose targets were queued.
#[derive(Debug)]
pub struct SendResponse {
    pub request_id: Option<String>,
    /// The sender's canonical id.
    pub requester_session: String,
    pub sender_display_name: Option<String>,
    pub authenticated_identity: Option<String>,
    pub on_behalf_of: Option<String>,
    pub results: Vec<SendResult>,
}

/// A queued send: the tasks to hand to the delivery workers, in order, and
/// the response that reports them.
pub struct QueuedSend {
    pub tasks: Vec<AsyncDeliveryTask>,
    pub response: SendResponse,
}

/// The error that refuses a send's request shape, if any.
pub open spec fn send_request_error(message: Seq<char>, target_count: nat, broadcast: bool) -> Option<
    RelayErrorView,
> {
    if is_blank_seq(message) {
        Some(error_view("validation_invalid_arguments"@, "message must be non-empty"@, None))
    } else if !broadcast && target_count == 0 {
        Some(
            error_view(
                "validation_empty_targets"@,
                "targets must contain at least one session"@,
                None,
            ),
        )
    } else if broadcast && target_count > 0 {
        Some(
            error_view(
                "validation_conflicting_targets"@,
                "targets must be empty when broadcast=true"@,
                None,
            ),
        )
    } else {
        None
    }
}

/// Who a requester resolves to (its session id and display name): the bundle
/// member of that id, else the declared UI session of that id, else the
/// unknown-sender error naming the request field.
pub open spec fn spec_sender(
    bundle: BundleConfiguration,
    ui_sessions: Seq<UiSession>,
    session: Seq<char>,
    field: Seq<char>,
) -> Result<(Seq<char>, Option<Seq<char>>), RelayErrorView> {
    let m = first_index(bundle.members@, member_id(session));
    let u = first_index(ui_sessions, ui_id(session));
    if m >= 0 {
        Ok((bundle.members@[m].id@, name_view(bundle.members@[m].name)))
    } else if u >= 0 {
        Ok((session, name_view(ui_sessions[u].display_name)))
    } else {
        Err(
            error_view(
                "validation_unknown_sender"@,
                "sender session is not configured"@,
                Some(seq![text_detail("field"@, field), text_detail("value"@, session)]),
            ),
        )
    }
}

pub open spec fn sender_view(sender: SenderIdentity) -> (Seq<char>, Option<Seq<char>>) {
    (sender.session_id@, name_view(sender.display_name))
}

/// Whether an id is not `sender`'s.
pub open spec fn differs_from(sender: Seq<char>) -> spec_fn(Seq<char>) -> bool {
    |id: Seq<char>| id != sender
}

/// The group of a broadcast: every member of the sender's bundle but the
/// sender, in configuration order.
pub open spec fn broadcast_group(bundle: BundleConfiguration, sender: Seq<char>) -> GroupView {
    GroupView {
        bundle_name: bundle.bundle_name@,
        targets: bundle.members_view().map_values(|m: MemberView| m.id).filter(
            differs_from(sender),
        ).map_values(|id: Seq<char>| TargetView { session_id: id, is_ui: false }),
    }
}

/// What a send's checks come to: the refusing error, or the sender and the
/// groups its targets resolved to.
pub open spec fn spec_prepare_send(
    bundle: BundleConfiguration,
    ui_sessions: Seq<UiSession>,
    catalog: Seq<CatalogBundle>,
    requester: Seq<char>,
    message: Seq<char>,
    targets: Seq<Seq<char>>,
    broadcast: bool,
) -> Result<((Seq<char>, Option<Seq<char>>), Seq<GroupView>), RelayErrorView> {
    match send_request_error(message, targets.len(), broadcast) {
        Some(e) => Err(e),
        None => match spec_sender(bundle, ui_sessions, requester, "requester_session"@) {
            Err(e) => Err(e),
            Ok(sender) => if broadcast {
                Ok((sender, seq![broadcast_group(bundle, requester)]))
            } else {
                match spec_resolve_target_groups(bundle, ui_sessions, catalog, targets) {
                    Err(e) => Err(e),
                    Ok(groups) => Ok((sender, groups)),
                }
            },
        },
    }
}

/// Runs a send's checks in order: the request's shape, then who sent it,
/// then where its targets go.
pub fn prepare_send(
    bundle: &BundleConfiguration,
    ui_sessions: &Vec<UiSession>,
    catalog: &Vec<CatalogBundle>,
    requester_session: &str,
    message: &str,
    targets: &Vec<String>,
    broadcast: bool,
) -> (prepared: Result<PreparedSend, RelayError>)
    ensures
        match spec_prepare_send(
            *bundle,
            ui_sessions@,
            catalog@,
            requester_session@,
            message@,
            targets@.map_values(|t: String| t@),
            broadcast,
        ) {
            Ok((sender, groups)) => prepared is Ok && sender_view(prepared->Ok_0.sender) == sender
                && groups_view(prepared->Ok_0.groups@) == groups,
            Err(e) => prepared is Err && prepared->Err_0@ == e,
        },
{
    let ghost all = targets@.map_values(|t: String| t@);
    assert(all.len() == targets@.len());
    match validate_send_request(message, targets.len(), broadcast) {
        Err(e) => return Err(e),
        Ok(()) => {},
    }
    let sender = match resolve_sender_identity(
        bundle,
        ui_sessions,
        requester_session,
        "requester_session",
    ) {
        Err(e) => return Err(e),
        Ok(s) => s,
    };
    proof {
        let m = first_index(bundle.members@, member_id(requester_session@));
        if m >= 0 {
            crate::seqs::lemma_first_index(bundle.members@, member_id(requester_session@));
        }
    }
    if broadcast {
        let group = broadcast_delivery_group(bundle, requester_session);
        let mut groups: Vec<DeliveryGroup> = Vec::new();
        groups.push(group);
        assert(groups_view(groups@) =~= seq![broadcast_group(*bundle, requester_session@)]);
        Ok(PreparedSend { sender, groups })
    } else {
        match resolve_target_groups(bundle, ui_sessions, catalog, targets) {
            Err(e) => Err(e),
            Ok(groups) => Ok(PreparedSend { sender, groups }),
        }
    }
}

/// The delivery group of a broadcast from `sender_session`.
fn broadcast_delivery_group(bundle: &BundleConfiguration, sender_session: &str) -> (group:
    DeliveryGroup)
    ensures
        group@ == broadcast_group(*bundle, sender_session@),
{
    let ids = match broadcast_targets(Some(bundle), sender_session) {
        Ok(ids) => ids,
        Err(_) => Vec::new(),
    };
    let ghost kept = bundle.members_view().map_values(|m: MemberView| m.id).filter(
        differs_from(sender_session@),
    );
    assert(differs_from(sender_session@) =~= (|id: Seq<char>| id != sender_session@));
    assert(ids@.map_values(|s: String| s@) == kept);
    let mut targets: Vec<ResolvedTarget> = Vec::new();
    let mut i: usize = 0;
    while i < ids.len()
        invariant
            i <= ids@.len(),
            ids@.map_values(|s: String| s@) == kept,
            targets@.len() == i,
            forall|j: int|
                0 <= j < i ==> #[trigger] targets@[j]@ == (TargetView {
                    session_id: kept[j],
                    is_ui: false,
                }),
        decreases ids@.len() - i,
    {
        assert(kept[i as int] == ids@[i as int]@);
        targets.push(ResolvedTarget { session_id: ids[i].clone(), is_ui: false });
        i = i + 1;
    }
    let group = DeliveryGroup { bundle_name: bundle.bundle_name.clone(), targets };
    assert(group@.targets =~= kept.map_values(
        |id: Seq<char>| TargetView { session_id: id, is_ui: false },
    ));
    group
}

/// A group's targets, each tagged with the group's bundle.
pub open spec fn tagged(group: GroupView) -> Seq<(Seq<char>, TargetView)> {
    group.targets.map_values(|t: TargetView| (group.bundle_name, t))
}

/// Every target of `groups`, in group order, tagged with its bundle.
pub open spec fn recipients_of(groups: Seq<GroupView>) -> Seq<(Seq<char>, TargetView)>
    decreases groups.len(),
{
    if groups.len() == 0 {
        seq![]
    } else {
        recipients_of(groups.drop_last()) + tagged(groups.last())
    }
}

/// A recipient's canonical id.
pub open spec fn canonical_recipient(recipient: (Seq<char>, TargetView)) -> Seq<char> {
    spec_canonical(recipient.1.session_id, recipient.0)
}

/// The canonical ids of every recipient of `groups`.
pub open spec fn recipient_ids(groups: Seq<GroupView>) -> Seq<Seq<char>> {
    recipients_of(groups).map_values(|r: (Seq<char>, TargetView)| canonical_recipient(r))
}

proof fn lemma_recipients_step(groups: Seq<GroupView>, i: int)
    requires
        0 <= i < groups.len(),
    ensures
        recipients_of(groups.take(i + 1)) == recipients_of(groups.take(i)) + tagged(groups[i]),
{
    assert(groups.take(i + 1).drop_last() =~= groups.take(i));
    assert(groups.take(i + 1).last() == groups[i]);
}

/// A prefix of the groups has no more recipients than the groups in full.
proof fn lemma_recipients_prefix(groups: Seq<GroupView>, i: int)
    requires
        0 <= i <= groups.len(),
    ensures
        recipients_of(groups.take(i)).len() <= recipients_of(groups).len(),
    decreases groups.len() - i,
{
    if i < groups.len() {
        lemma_recipients_step(groups, i);
        lemma_recipients_prefix(groups, i + 1);
    } else {
        assert(groups.take(i) =~= groups);
    }
}

/// The canonical ids of every recipient of `groups`.
fn collect_recipient_ids(groups: &Vec<DeliveryGroup>) -> (ids: Vec<String>)
    ensures
        ids@.map_values(|s: String| s@) == recipient_ids(groups_view(groups@)),
{
    let ghost gv = groups_view(groups@);
    let mut ids: Vec<String> = Vec::new();
    let mut gi: usize = 0;
    assert(gv.take(0) =~= Seq::<GroupView>::empty());
    assert(ids@.map_values(|s: String| s@) =~= recipient_ids(gv.take(0)));
    while gi < groups.len()
        invariant
            gi <= groups@.len(),
            gv == groups_view(groups@),
            ids@.map_values(|s: String| s@) == recipient_ids(gv.take(gi as int)),
        decreases groups@.len() - gi,
    {
        let group = &groups[gi];
        let ghost g = gv[gi as int];
        let ghost base = ids@.map_values(|s: String| s@);
        assert(g == group@);
        let mut ti: usize = 0;
        while ti < group.targets.len()
            invariant
                ti <= group.targets@.len(),
                g == group@,
                ids@.map_values(|s: String| s@) == base + tagged(g).take(ti as int).map_values(
                    |r: (Seq<char>, TargetView)| canonical_recipient(r),
                ),
            decreases group.targets@.len() - ti,
        {
            let ghost before = ids@.map_values(|s: String| s@);
            let id = canonical_session_id(
                group.targets[ti].session_id.as_str(),
                group.bundle_name.as_str(),
            );
            ids.push(id);
            proof {
                assert(tagged(g)[ti as int] == (g.bundle_name, group.targets@[ti as int]@));
                assert(tagged(g).take(ti + 1) =~= tagged(g).take(ti as int).push(
                    tagged(g)[ti as int],
                ));
                assert(ids@.map_values(|s: String| s@) =~= before.push(
                    canonical_recipient(tagged(g)[ti as int]),
                ));
            }
            ti = ti + 1;
        }
        proof {
            lemma_recipients_step(gv, gi as int);
            assert(tagged(g).take(tagged(g).len() as int) =~= tagged(g));
            assert(recipients_of(gv.take(gi + 1)).map_values(
                |r: (Seq<char>, TargetView)| canonical_recipient(r),
            ) =~= recipients_of(gv.take(gi as int)).map_values(
                |r: (Seq<char>, TargetView)| canonical_recipient(r),
            ) + tagged(g).map_values(|r: (Seq<char>, TargetView)| canonical_recipient(r)));
        }
        gi = gi + 1;
    }
    assert(gv.take(gv.len() as int) =~= gv);
    ids
}

/// The quiet window an async delivery waits for.
pub open spec fn spec_quiet_window(quiet_window_ms: Option<u64>) -> u64 {
    match quiet_window_ms {
        Some(ms) => if ms > 0 {
            ms
        } else {
            QUIET_WINDOW_MS_DEFAULT
        },
        None => QUIET_WINDOW_MS_DEFAULT,
    }
}

/// Where one target bundle's deliveries run: its runtime directory, and the
/// relay-wide UI sessions its authorization lets decide the choices its
/// members raise.
#[derive(Debug)]
pub struct GroupDeliveryContext {
    pub bundle_name: String,
    pub runtime_directory: String,
    pub choice_decider_sessions: Vec<String>,
}

pub struct ContextView {
    pub bundle_name: Seq<char>,
    pub runtime_directory: Seq<char>,
    pub choice_decider_sessions: Seq<Seq<char>>,
}

impl View for GroupDeliveryContext {
    type V = ContextView;

    open spec fn view(&self) -> ContextView {
        ContextView {
            bundle_name: self.bundle_name@,
            runtime_directory: self.runtime_directory@,
            choice_decider_sessions: self.choice_decider_sessions@.map_values(|s: String| s@),
        }
    }
}

pub open spec fn contexts_view(contexts: Seq<GroupDeliveryContext>) -> Seq<ContextView> {
    contexts.map_values(|c: GroupDeliveryContext| c@)
}

pub open spec fn context_named(name: Seq<char>) -> spec_fn(ContextView) -> bool {
    |c: ContextView| c.bundle_name == name
}

/// The delivery context of the bundle `name`: the first one given for it.
pub open spec fn context_for(contexts: Seq<ContextView>, name: Seq<char>) -> ContextView {
    contexts[first_index(contexts, context_named(name))]
}

/// Finds the first delivery context given for the bundle `name`.
fn find_context(contexts: &Vec<GroupDeliveryContext>, name: &str) -> (found: Option<usize>)
    ensures
        match found {
            Some(i) => i < contexts@.len() && i as int == first_index(
                contexts_view(contexts@),
                context_named(name@),
            ),
            None => first_index(contexts_view(contexts@), context_named(name@)) < 0,
        },
{
    let ghost cv = contexts_view(contexts@);
    let mut i: usize = 0;
    while i < contexts.len()
        invariant
            i <= contexts@.len(),
            cv == contexts_view(contexts@),
            forall|j: int| 0 <= j < i ==> !context_named(name@)(#[trigger] cv[j]),
        decreases contexts@.len() - i,
    {
        if str_eq(contexts[i].bundle_name.as_str(), name) {
            proof {
                lemma_first_index_is(cv, context_named(name@), i as int);
            }
            return Some(i);
        }
        i = i + 1;
    }
    proof {
        lemma_first_index(cv, context_named(name@));
    }
    None
}

/// `task` is the delivery of `message` to `recipient`, sent by `sender` from
/// `home_namespace`, among `recipients`.
pub open spec fn is_send_task(
    task: AsyncDeliveryTask,
    recipient: (Seq<char>, TargetView),
    recipients: Seq<Seq<char>>,
    sender: SenderIdentity,
    home_namespace: Seq<char>,
    message: Seq<char>,
    authenticated_identity: Option<Seq<char>>,
    on_behalf_of: Option<Seq<char>>,
    quiet_window_ms: Option<u64>,
    contexts: Seq<ContextView>,
    return_route: Option<(MemberView, Option<Seq<char>>, Seq<char>)>,
) -> bool {
    &&& task.bundle_name@ == recipient.0
    &&& task.runtime_directory@ == context_for(contexts, recipient.0).runtime_directory
    &&& task.choice_decider_sessions@.map_values(|s: String| s@) == context_for(
        contexts,
        recipient.0,
    ).choice_decider_sessions
    &&& route_view(task.sender_return_route) == return_route
    &&& task.target_session@ == recipient.1.session_id
    &&& task.target_is_ui == recipient.1.is_ui
    &&& task.sender_namespace@ == home_namespace
    &&& task.sender_session@ == sender.session_id@
    &&& name_view(task.sender_display_name) == name_view(sender.display_name)
    &&& text_opt(task.authenticated_identity) == authenticated_identity
    &&& text_opt(task.on_behalf_of) == on_behalf_of
    &&& task.all_target_sessions@.map_values(|s: String| s@) == recipients
    &&& task.message@ == message
    &&& task.quiescence.quiet_window_ms == spec_quiet_window(quiet_window_ms)
    &&& task.payload_mode == DeliveryPayloadMode::EnvelopeMessage
    &&& task.append_enter
    &&& !task.is_receipt
}

fn copy_opt_text(value: &Option<String>) -> (copy: Option<String>)
    ensures
        text_opt(copy) == text_opt(*value),
{
    match value {
        None => None,
        Some(v) => Some(v.clone()),
    }
}

/// Turns a prepared send into its tasks and response: one task and one
/// `queued` result per target, in group order, each under a fresh message
/// id, every task naming all the recipients, delivered in its bundle's
/// context (`contexts` holds one for each group's bundle), and carrying the
/// sender's return route for receipts. When the random source gives no
/// message id, nothing is queued and the random-source error is returned.
pub fn execute_send(
    prepared: &PreparedSend,
    home_namespace: &str,
    message: &str,
    request_id: Option<String>,
    authenticated_identity: Option<String>,
    on_behalf_of: Option<String>,
    quiet_window_ms: Option<u64>,
    contexts: &Vec<GroupDeliveryContext>,
    sender_return_route: &Option<SenderReturnRoute>,
) -> (queued: Result<QueuedSend, RelayError>)
    requires
        forall|g: int|
            0 <= g < prepared.groups@.len() ==> first_index(
                contexts_view(contexts@),
                context_named(#[trigger] prepared.groups@[g].bundle_name@),
            ) >= 0,
    ensures
        queued is Err ==> queued->Err_0@ == spec_random_source_failed(),
        recipients_of(groups_view(prepared.groups@)).len() == 0 ==> queued is Ok,
        queued is Ok ==> ({
            let recipients = recipients_of(groups_view(prepared.groups@));
            let ids = recipient_ids(groups_view(prepared.groups@));
            &&& queued->Ok_0.tasks@.len() == recipients.len()
            &&& queued->Ok_0.response.results@.len() == recipients.len()
            &&& forall|k: int|
                0 <= k < recipients.len() ==> is_send_task(
                    #[trigger] queued->Ok_0.tasks@[k],
                    recipients[k],
                    ids,
                    prepared.sender,
                    home_namespace@,
                    message@,
                    text_opt(authenticated_identity),
                    text_opt(on_behalf_of),
                    quiet_window_ms,
                    contexts_view(contexts@),
                    route_view(*sender_return_route),
                ) && queued->Ok_0.response.results@[k]@ == result_view(
                    canonical_recipient(recipients[k]),
                    queued->Ok_0.tasks@[k].message_id@,
                    SendOutcome::Queued,
                    None,
                    None,
                    None,
                )
        }),
        queued is Ok ==> text_opt(queued->Ok_0.response.request_id) == text_opt(request_id),
        queued is Ok ==> queued->Ok_0.response.requester_session@ == spec_canonical(
            prepared.sender.session_id@,
            home_namespace@,
        ),
        queued is Ok ==> name_view(queued->Ok_0.response.sender_display_name) == name_view(prepared.sender.display_name),
        queued is Ok ==> text_opt(queued->Ok_0.response.authenticated_identity) == text_opt(authenticated_identity),
        queued is Ok ==> text_opt(queued->Ok_0.response.on_behalf_of) == text_opt(on_behalf_of),
{
    let groups = &prepared.groups;
    let sender = &prepared.sender;
    let ghost gv = groups_view(groups@);
    let ghost recipients = recipients_of(gv);
    let all_ids = collect_recipient_ids(groups);
    let ghost ids = all_ids@.map_values(|s: String| s@);
    let quiescence = QuiescenceOptions::for_async(quiet_window_ms);
    let mut tasks: Vec<AsyncDeliveryTask> = Vec::new();
    let mut results: Vec<SendResult> = Vec::new();
    let mut gi: usize = 0;
    let ghost mut done: Seq<(Seq<char>, TargetView)> = seq![];
    assert(gv.take(0) =~= Seq::<GroupView>::empty());
    while gi < groups.len()
        invariant
            gi <= groups@.len(),
            gv == groups_view(groups@),
            ids == recipient_ids(gv),
            ids == all_ids@.map_values(|s: String| s@),
            groups == &prepared.groups,
            sender == &prepared.sender,
            forall|g: int|
                0 <= g < groups@.len() ==> first_index(
                    contexts_view(contexts@),
                    context_named(#[trigger] groups@[g].bundle_name@),
                ) >= 0,
            quiescence.quiet_window_ms == spec_quiet_window(quiet_window_ms),
            done == recipients_of(gv.take(gi as int)),
            tasks@.len() == done.len(),
            results@.len() == done.len(),
            forall|k: int|
                0 <= k < done.len() ==> is_send_task(
                    #[trigger] tasks@[k],
                    done[k],
                    ids,
                    prepared.sender,
                    home_namespace@,
                    message@,
                    text_opt(authenticated_identity),
                    text_opt(on_behalf_of),
                    quiet_window_ms,
                    contexts_view(contexts@),
                    route_view(*sender_return_route),
                ) && results@[k]@ == result_view(
                    canonical_recipient(done[k]),
                    tasks@[k].message_id@,
                    SendOutcome::Queued,
                    None,
                    None,
                    None,
                ),
        decreases groups@.len() - gi,
    {
        let group = &groups[gi];
        let ghost g = gv[gi as int];
        let ghost base = done;
        assert(g == group@);
        assert(first_index(contexts_view(contexts@), context_named(groups@[gi as int].bundle_name@))
            >= 0);
        let ci = match find_context(contexts, group.bundle_name.as_str()) {
            Some(ci) => ci,
            None => {
                assert(false);
                0
            },
        };
        let context = &contexts[ci];
        assert(contexts_view(contexts@)[ci as int] == context@);
        let mut ti: usize = 0;
        assert(tagged(g).take(0) =~= Seq::<(Seq<char>, TargetView)>::empty());
        assert(done =~= base + tagged(g).take(0));
        proof {
            lemma_recipients_step(gv, gi as int);
            lemma_recipients_prefix(gv, gi + 1);
        }
        while ti < group.targets.len()
            invariant
                ti <= group.targets@.len(),
                g == group@,
                base.len() + tagged(g).len() <= recipients_of(groups_view(prepared.groups@)).len(),
                ci < contexts@.len(),
                context == &contexts@[ci as int],
                ci as int == first_index(contexts_view(contexts@), context_named(g.bundle_name)),
                ids == all_ids@.map_values(|s: String| s@),
                sender == &prepared.sender,
                quiescence.quiet_window_ms == spec_quiet_window(quiet_window_ms),
                done == base + tagged(g).take(ti as int),
                tasks@.len() == done.len(),
                results@.len() == done.len(),
                forall|k: int|
                    0 <= k < done.len() ==> is_send_task(
                        #[trigger] tasks@[k],
                        done[k],
                        ids,
                        prepared.sender,
                        home_namespace@,
                        message@,
                        text_opt(authenticated_identity),
                        text_opt(on_behalf_of),
                        quiet_window_ms,
                        contexts_view(contexts@),
                        route_view(*sender_return_route),
                    ) && results@[k]@ == result_view(
                        canonical_recipient(done[k]),
                        tasks@[k].message_id@,
                        SendOutcome::Queued,
                        None,
                        None,
                        None,
                    ),
            decreases group.targets@.len() - ti,
        {
            let target = &group.targets[ti];
            assert(recipients_of(groups_view(prepared.groups@)).len() > 0);
            let message_id = match new_request_id() {
                Some(id) => id,
                None => return Err(random_source_failed()),
            };
            let task = AsyncDeliveryTask {
                bundle_name: group.bundle_name.clone(),
                sender_namespace: String::from_str(home_namespace),
                sender_session: sender.session_id.clone(),
                sender_display_name: copy_opt_text(&sender.display_name),
                authenticated_identity: copy_opt_text(&authenticated_identity),
                on_behalf_of: copy_opt_text(&on_behalf_of),
                all_target_sessions: copy_string_vec(&all_ids),
                target_session: target.session_id.clone(),
                target_is_ui: target.is_ui,
                message_id: message_id.clone(),
                message: String::from_str(message),
                quiescence,
                payload_mode: DeliveryPayloadMode::EnvelopeMessage,
                append_enter: true,
                is_receipt: false,
                runtime_directory: context.runtime_directory.clone(),
                choice_decider_sessions: copy_string_vec(&context.choice_decider_sessions),
                sender_return_route: copy_route(sender_return_route),
            };
            let label = canonical_session_id(target.session_id.as_str(), group.bundle_name.as_str());
            let result = queued_result(label, message_id);
            proof {
                assert(tagged(g)[ti as int] == (g.bundle_name, group.targets@[ti as int]@));
                assert(tagged(g).take(ti + 1) =~= tagged(g).take(ti as int).push(
                    tagged(g)[ti as int],
                ));
                done = done.push(tagged(g)[ti as int]);
            }
            tasks.push(task);
            results.push(result);
            ti = ti + 1;
        }
        proof {
            lemma_recipients_step(gv, gi as int);
            assert(tagged(g).take(tagged(g).len() as int) =~= tagged(g));
        }
        gi = gi + 1;
    }
    assert(gv.take(gv.len() as int) =~= gv);
    let response = SendResponse {
        request_id,
        requester_session: canonical_session_id(sender.session_id.as_str(), home_namespace),
        sender_display_name: copy_opt_text(&sender.display_name),
        authenticated_identity,
        on_behalf_of,
        results,
    };
    Ok(QueuedSend { tasks, response })
}

/// A broadcast never goes back to its sender: each of its targets is another
/// configured member of the sender's bundle, never a UI session.
pub proof fn lemma_broadcast_excludes_sender(bundle: BundleConfiguration, sender: Seq<char>, k: int)
    requires
        0 <= k < broadcast_group(bundle, sender).targets.len(),
    ensures
        broadcast_group(bundle, sender).targets[k].session_id != sender,
        bundle.members_view().map_values(|m: MemberView| m.id).contains(
            broadcast_group(bundle, sender).targets[k].session_id,
        ),
        !broadcast_group(bundle, sender).targets[k].is_ui,
{
    broadcast use vstd::seq_lib::group_filter_ensures;

    let ids = bundle.members_view().map_values(|m: MemberView| m.id);
    let kept = ids.filter(differs_from(sender));
    assert(broadcast_group(bundle, sender).targets[k] == (TargetView {
        session_id: kept[k],
        is_ui: false,
    }));
    assert(kept.contains(kept[k]));
    ids.lemma_filter_contains_rev(differs_from(sender), kept[k]);
}

/// Whether a request's authenticated principal is a peer relay: such a request
/// arrives over cross-relay ingress. Decided from the authenticated identity,
/// never from the requester the request names.
pub open spec fn spec_relay_ingress(authenticated: Option<Seq<char>>) -> bool {
    match authenticated {
        Some(p) => spec_classify(p) == Some(PrincipalType::Relay),
        None => false,
    }
}

/// How a target operation treats its requester once ingress is known.
#[derive(Debug)]
pub struct IngressDecision {
    /// The request came from an authenticated peer relay.
    pub relay_ingress: bool,
    /// The namespace the requester is resolved in: `RELAY` for ingress, else
    /// its own home namespace.
    pub home_namespace: String,
    /// The origin attribution honoured: only a peer relay may assert one.
    pub on_behalf_of: Option<String>,
}

/// Decides relay ingress for a target operation: a request whose
/// authenticated principal is a peer relay (`<id>@RELAY`) is resolved in the
/// `RELAY` namespace and keeps the origin attribution the peer forwarded;
/// any other requester is resolved in its home namespace and its
/// `on_behalf_of` is dropped, since a session cannot assert one for itself.
pub fn decide_ingress(
    authenticated: Option<&str>,
    home_namespace: &str,
    on_behalf_of: Option<String>,
) -> (decision: IngressDecision)
    ensures
        decision.relay_ingress == spec_relay_ingress(
            match authenticated {
                Some(p) => Some(p@),
                None => None,
            },
        ),
        decision.home_namespace@ == (if decision.relay_ingress {
            relay_namespace()
        } else {
            home_namespace@
        }),
        decision.relay_ingress ==> decision.on_behalf_of == on_behalf_of,
        !decision.relay_ingress ==> decision.on_behalf_of is None,
{
    let relay_ingress = match authenticated {
        Some(p) => match classify_principal_id(p) {
            Some(PrincipalType::Relay) => true,
            _ => false,
        },
        None => false,
    };
    if relay_ingress {
        let relay = String::from_str("RELAY");
        proof {
            reveal_strlit("RELAY");
        }
        IngressDecision { relay_ingress, home_namespace: relay, on_behalf_of }
    } else {
        IngressDecision {
            relay_ingress,
            home_namespace: String::from_str(home_namespace),
            on_behalf_of: None,
        }
    }
}

/// Whether a route target names a peer relay (a bang-path target).
pub open spec fn names_peer_relay(relay: Option<String>) -> bool {
    relay is Some
}

/// `names_peer_relay`, as a predicate over route targets.
pub open spec fn peer_relay_named() -> spec_fn(Option<String>) -> bool {
    |r: Option<String>| names_peer_relay(r)
}

/// For a peer-relay (ingress) requester, the first route target that names
/// a peer relay, which refuses the whole operation: a peer may address only
/// plain local targets and can never chain onward through this relay. Each
/// target is given by the peer relay it names (`None` for a local target). A
/// requester that is not a peer relay is never refused here.
pub fn refused_ingress_target(relay_ingress: bool, target_relays: &Vec<Option<String>>) -> (refused:
    Option<usize>)
    ensures
        !relay_ingress ==> refused is None,
        relay_ingress && first_index(target_relays@, peer_relay_named()) < 0
            ==> refused is None,
        relay_ingress && first_index(target_relays@, peer_relay_named()) >= 0
            ==> (refused matches Some(i) && i as int == first_index(
            target_relays@,
            peer_relay_named(),
        )),
{
    if !relay_ingress {
        return None;
    }
    let ghost p = peer_relay_named();
    let mut i: usize = 0;
    while i < target_relays.len()
        invariant
            i <= target_relays@.len(),
            relay_ingress,
            p == (peer_relay_named()),
            forall|j: int| 0 <= j < i ==> !p(#[trigger] target_relays@[j]),
        decreases target_relays@.len() - i,
    {
        if target_relays[i].is_some() {
            proof {
                lemma_first_index_is(target_relays@, p, i as int);
            }
            return Some(i);
        }
        i = i + 1;
    }
    proof {
        lemma_first_index(target_relays@, p);
    }
    None
}

/// The sender of a request that arrived over cross-relay ingress: the peer
/// relay itself, named by its authenticated principal id, never by the
/// requester the request claims. A peer relay has no configured display name.
pub fn ingress_sender(principal_id: &str) -> (sender: SenderIdentity)
    ensures
        sender.session_id@ == principal_id@,
        sender.display_name is None,
{
    SenderIdentity { session_id: String::from_str(principal_id), display_name: None }
}

/// The refusal of a cross-relay target on a relay that holds no peer
/// connections.
pub open spec fn spec_cross_relay_unavailable() -> RelayErrorView {
    error_view(
        "runtime_cross_relay_unavailable"@,
        "cross-relay routing is not available on this relay"@,
        None,
    )
}

/// A route naming any target on another relay (each target given by the peer
/// relay it names, `None` when local) needs a peer connection manager; the
/// relay's non-stream entry point has none, so such a route is refused there
/// rather than dropping its foreign targets silently.
pub fn check_cross_relay_available(has_peer_manager: bool, target_relays: &Vec<Option<String>>) -> (checked:
    Result<(), RelayError>)
    ensures
        (!has_peer_manager && exists|k: int|
            0 <= k < target_relays@.len() && (#[trigger] target_relays@[k]) is Some) ==> checked
            is Err && checked->Err_0@ == spec_cross_relay_unavailable(),
        (has_peer_manager || forall|k: int|
            0 <= k < target_relays@.len() ==> (#[trigger] target_relays@[k]) is None) ==> checked
            is Ok,
{
    if has_peer_manager {
        return Ok(());
    }
    let mut i: usize = 0;
    while i < target_relays.len()
        invariant
            i <= target_relays@.len(),
            !has_peer_manager,
            forall|k: int| 0 <= k < i ==> (#[trigger] target_relays@[k]) is None,
        decreases target_relays@.len() - i,
    {
        if target_relays[i].is_some() {
            assert(target_relays@[i as int] is Some);
            return Err(
                relay_error(
                    "runtime_cross_relay_unavailable",
                    "cross-relay routing is not available on this relay",
                    None,
                ),
            );
        }
        i = i + 1;
    }
    Ok(())
}

/// Why a send is refused before its targets are resolved.
#[derive(Debug)]
pub enum SendRefusal {
    /// Refused with this error.
    Refused(RelayError),
    /// A peer-relay requester named the route target at this position on
    /// another relay; the authorization layer answers it with the ingress
    /// refusal for that target.
    IngressCrossRelayTarget(usize),
}

/// What a send's preflight comes to.
pub enum PreflightView {
    Refused(RelayErrorView),
    IngressCrossRelayTarget(int),
    /// The sender's id and display name.
    Passed(Seq<char>, Option<Seq<char>>),
}

pub open spec fn auth_view(authenticated: Option<&str>) -> Option<Seq<char>> {
    match authenticated {
        Some(p) => Some(p@),
        None => None,
    }
}

/// The checks a send passes before its targets are resolved, in the order the
/// relay runs them: the request's shape; who sent it (a peer relay is itself
/// the sender, anyone else is resolved, bare, in its home namespace); for a
/// peer relay, a target on another relay; a target on another relay with no
/// peer connections to forward it.
pub open spec fn spec_send_preflight(
    bundle: BundleConfiguration,
    ui_sessions: Seq<UiSession>,
    authenticated: Option<Seq<char>>,
    home_namespace: Seq<char>,
    requester: Seq<char>,
    message: Seq<char>,
    target_count: nat,
    broadcast: bool,
    target_relays: Seq<Option<String>>,
    has_peer_manager: bool,
) -> PreflightView {
    let ingress = spec_relay_ingress(authenticated);
    let cross = first_index(target_relays, peer_relay_named());
    match send_request_error(message, target_count, broadcast) {
        Some(e) => PreflightView::Refused(e),
        None => {
            let sender: Result<(Seq<char>, Option<Seq<char>>), RelayErrorView> = if ingress {
                Ok((authenticated.unwrap(), None))
            } else {
                spec_sender(
                    bundle,
                    ui_sessions,
                    spec_bare(requester, home_namespace),
                    "requester_session"@,
                )
            };
            match sender {
                Err(e) => PreflightView::Refused(e),
                Ok(s) => if ingress && cross >= 0 {
                    PreflightView::IngressCrossRelayTarget(cross)
                } else if !has_peer_manager && cross >= 0 {
                    PreflightView::Refused(spec_cross_relay_unavailable())
                } else {
                    PreflightView::Passed(s.0, s.1)
                },
            }
        },
    }
}

pub open spec fn preflight_view(checked: Result<(IngressDecision, SenderIdentity), SendRefusal>) -> PreflightView {
    match checked {
        Err(SendRefusal::Refused(e)) => PreflightView::Refused(e@),
        Err(SendRefusal::IngressCrossRelayTarget(i)) => PreflightView::IngressCrossRelayTarget(i as int),
        Ok((_, s)) => PreflightView::Passed(s.session_id@, name_view(s.display_name)),
    }
}

/// Runs a send's checks that come before target resolution, in the relay's
/// order (see `spec_send_preflight`), and decides ingress on the way: the
/// decision and the sender, or the first refusal. Target resolution
/// (`prepare_send`'s groups) follows only a send that passed.
pub fn send_preflight(
    bundle: &BundleConfiguration,
    ui_sessions: &Vec<UiSession>,
    authenticated: Option<&str>,
    home_namespace: &str,
    requester_session: &str,
    message: &str,
    target_count: usize,
    broadcast: bool,
    on_behalf_of: Option<String>,
    target_relays: &Vec<Option<String>>,
    has_peer_manager: bool,
) -> (checked: Result<(IngressDecision, SenderIdentity), SendRefusal>)
    ensures
        preflight_view(checked) == spec_send_preflight(
            *bundle,
            ui_sessions@,
            auth_view(authenticated),
            home_namespace@,
            requester_session@,
            message@,
            target_count as nat,
            broadcast,
            target_relays@,
            has_peer_manager,
        ),
        checked matches Ok((decision, _)) ==> {
            &&& decision.relay_ingress == spec_relay_ingress(auth_view(authenticated))
            &&& decision.home_namespace@ == (if decision.relay_ingress {
                relay_namespace()
            } else {
                home_namespace@
            })
            &&& decision.relay_ingress ==> decision.on_behalf_of == on_behalf_of
            &&& !decision.relay_ingress ==> decision.on_behalf_of is None
        },
{
    if let Err(e) = validate_send_request(message, target_count, broadcast) {
        return Err(SendRefusal::Refused(e));
    }
    let decision = decide_ingress(authenticated, home_namespace, on_behalf_of);
    let sender = if decision.relay_ingress {
        match authenticated {
            Some(p) => ingress_sender(p),
            None => {
                assert(false);
                return Err(SendRefusal::IngressCrossRelayTarget(0));
            },
        }
    } else {
        let requester = bare_session_id(requester_session, home_namespace);
        match resolve_sender_identity(bundle, ui_sessions, requester.as_str(), "requester_session") {
            Ok(s) => s,
            Err(e) => return Err(SendRefusal::Refused(e)),
        }
    };
    proof {
        lemma_first_index(target_relays@, peer_relay_named());
    }
    if let Some(i) = refused_ingress_target(decision.relay_ingress, target_relays) {
        return Err(SendRefusal::IngressCrossRelayTarget(i));
    }
    if let Err(e) = check_cross_relay_available(has_peer_manager, target_relays) {
        return Err(SendRefusal::Refused(e));
    }
    Ok((decision, sender))
}

/// Where a raww that passed its preflight goes.
#[derive(Debug)]
pub enum RawwPreflight {
    /// Deliver it to a target on this relay.
    Local(IngressDecision, SenderIdentity),
    /// Forward it to the peer relay its target names.
    Forward(IngressDecision, SenderIdentity),
}

/// What a raww's preflight comes to.
pub enum RawwPreflightView {
    Refused(RelayErrorView),
    IngressCrossRelayTarget,
    Forward(Seq<char>, Option<Seq<char>>),
    Local(Seq<char>, Option<Seq<char>>),
}

/// The error that refuses a raww's request shape, if any.
pub open spec fn raww_request_error(target_session: Seq<char>, text_bytes: nat) -> Option<
    RelayErrorView,
> {
    if is_blank_seq(target_session) {
        Some(
            error_view(
                "validation_invalid_params"@,
                "target_session must be non-empty"@,
                Some(seq![text_detail("field"@, "target_session"@)]),
            ),
        )
    } else if text_bytes > RAWW_TEXT_MAX_BYTES {
        Some(
            error_view(
                "validation_invalid_params"@,
                "raww text exceeds maximum size of 32 KiB"@,
                Some(
                    seq![
                        text_detail("field"@, "text"@),
                        number_detail("max_bytes"@, RAWW_TEXT_MAX_BYTES as u64),
                        number_detail("bytes"@, text_bytes as u64),
                    ],
                ),
            ),
        )
    } else {
        None
    }
}

/// The checks a raww passes before its target is resolved, in the relay's
/// order: the request's shape; who sent it (a peer relay is itself the
/// sender, anyone else is resolved, bare, in its home namespace); then, for a
/// target on another relay (`target_relay`), the refusal of a peer-relay
/// requester or the forward; else local delivery.
pub open spec fn spec_raww_preflight(
    bundle: BundleConfiguration,
    ui_sessions: Seq<UiSession>,
    authenticated: Option<Seq<char>>,
    home_namespace: Seq<char>,
    requester: Seq<char>,
    target_session: Seq<char>,
    text_bytes: nat,
    target_relay: Option<Seq<char>>,
) -> RawwPreflightView {
    let ingress = spec_relay_ingress(authenticated);
    match raww_request_error(target_session, text_bytes) {
        Some(e) => RawwPreflightView::Refused(e),
        None => {
            let sender: Result<(Seq<char>, Option<Seq<char>>), RelayErrorView> = if ingress {
                Ok((authenticated.unwrap(), None))
            } else {
                spec_sender(
                    bundle,
                    ui_sessions,
                    spec_bare(requester, home_namespace),
                    "requester_session"@,
                )
            };
            match sender {
                Err(e) => RawwPreflightView::Refused(e),
                Ok(s) => if target_relay is Some && ingress {
                    RawwPreflightView::IngressCrossRelayTarget
                } else if target_relay is Some {
                    RawwPreflightView::Forward(s.0, s.1)
                } else {
                    RawwPreflightView::Local(s.0, s.1)
                },
            }
        },
    }
}

pub open spec fn raww_preflight_view(checked: Result<RawwPreflight, SendRefusal>) -> RawwPreflightView {
    match checked {
        Err(SendRefusal::Refused(e)) => RawwPreflightView::Refused(e@),
        Err(SendRefusal::IngressCrossRelayTarget(_)) => RawwPreflightView::IngressCrossRelayTarget,
        Ok(RawwPreflight::Forward(_, s)) => RawwPreflightView::Forward(
            s.session_id@,
            name_view(s.display_name),
        ),
        Ok(RawwPreflight::Local(_, s)) => RawwPreflightView::Local(
            s.session_id@,
            name_view(s.display_name),
        ),
    }
}

/// Runs a raww's checks that come before its target is resolved, in the
/// relay's order (see `spec_raww_preflight`), deciding ingress on the way.
/// `target_relay` is the peer relay the route's target names, if any; a
/// forward then needs a peer connection (`check_cross_relay_available`).
pub fn raww_preflight(
    bundle: &BundleConfiguration,
    ui_sessions: &Vec<UiSession>,
    authenticated: Option<&str>,
    home_namespace: &str,
    requester_session: &str,
    target_session: &str,
    text: &str,
    target_relay: &Option<String>,
) -> (checked: Result<RawwPreflight, SendRefusal>)
    ensures
        raww_preflight_view(checked) == spec_raww_preflight(
            *bundle,
            ui_sessions@,
            auth_view(authenticated),
            home_namespace@,
            requester_session@,
            target_session@,
            text.len() as nat,
            text_opt(*target_relay),
        ),
        checked matches Ok(RawwPreflight::Local(decision, _)) ==> (decision.relay_ingress
            == spec_relay_ingress(auth_view(authenticated)) && decision.on_behalf_of is None),
{
    if let Err(e) = validate_raww_request(target_session, text) {
        return Err(SendRefusal::Refused(e));
    }
    let decision = decide_ingress(authenticated, home_namespace, None);
    let sender = if decision.relay_ingress {
        match authenticated {
            Some(p) => ingress_sender(p),
            None => {
                assert(false);
                return Err(SendRefusal::IngressCrossRelayTarget(0));
            },
        }
    } else {
        let requester = bare_session_id(requester_session, home_namespace);
        match resolve_sender_identity(bundle, ui_sessions, requester.as_str(), "requester_session") {
            Ok(s) => s,
            Err(e) => return Err(SendRefusal::Refused(e)),
        }
    };
    match target_relay {
        Some(_) => if decision.relay_ingress {
            Err(SendRefusal::IngressCrossRelayTarget(0))
        } else {
            Ok(RawwPreflight::Forward(decision, sender))
        },
        None => Ok(RawwPreflight::Local(decision, sender)),
    }
}

} // verus!
