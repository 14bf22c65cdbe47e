//! Resolving a send's explicit targets into per-bundle delivery groups.
//!
//! Every target is validated before anything is delivered. Its `@namespace`
//! suffix picks where it lives: `@GLOBAL` names a declared UI session and rides
//! the sender's group; `@EXTERNAL` and `@RELAY` are reserved and refuse the
//! whole send; `@<bundle>` names a member of that bundle, whose group is opened
//! the first time it is named; a bare target is a member or UI session of the
//! sender's bundle. Unknown targets of every kind accumulate into one error.
//! Groups keep the order in which their bundles were first named, and a group
//! that received no target is dropped.
use vstd::prelude::*;

use crate::configuration::{BundleConfiguration, BundleMember, UiSession};
use crate::errors::{
    error_view, relay_error, text_detail, text_field, two_details, Detail, DetailValue,
    DetailValueView, DetailView, RelayError, RelayErrorView,
};
use crate::identity::{classify_principal_id, spec_classify, spec_split, split_principal_id, PrincipalType};
use crate::operations::{find_member, find_ui_session, member_id, ui_id};
use crate::seqs::{first_index, lemma_first_index, lemma_first_index_is, lemma_filter_step};
use crate::text::{owned, spec_trim, str_eq, trim};

verus! {

/// A bundle of the relay's catalog, with its configuration as loading it
/// turned out.
pub struct CatalogBundle {
    pub bundle_name: String,
    pub configuration: Result<BundleConfiguration, RelayError>,
}

/// One validated target. `is_ui` marks a relay-wide UI session.
#[derive(Debug)]
pub struct ResolvedTarget {
    pub session_id: String,
    pub is_ui: bool,
}

/// The targets of one bundle, in the order they were named.
#[derive(Debug)]
pub struct DeliveryGroup {
    pub bundle_name: String,
    pub targets: Vec<ResolvedTarget>,
}

pub struct TargetView {
    pub session_id: Seq<char>,
    pub is_ui: bool,
}

pub struct GroupView {
    pub bundle_name: Seq<char>,
    pub targets: Seq<TargetView>,
}

/// Groups opened so far, and the targets found unknown so far.
pub struct GroupingState {
    pub groups: Seq<GroupView>,
    pub unknown: Seq<Seq<char>>,
}

impl View for ResolvedTarget {
    type V = TargetView;

    open spec fn view(&self) -> TargetView {
        TargetView { session_id: self.session_id@, is_ui: self.is_ui }
    }
}

impl View for DeliveryGroup {
    type V = GroupView;

    open spec fn view(&self) -> GroupView {
        GroupView {
            bundle_name: self.bundle_name@,
            targets: self.targets@.map_values(|t: ResolvedTarget| t@),
        }
    }
}

pub open spec fn named_group(name: Seq<char>) -> spec_fn(GroupView) -> bool {
    |g: GroupView| g.bundle_name == name
}

pub open spec fn named_bundle(name: Seq<char>) -> spec_fn(CatalogBundle) -> bool {
    |c: CatalogBundle| c.bundle_name@ == name
}

pub open spec fn is_member(members: Seq<BundleMember>, id: Seq<char>) -> bool {
    first_index(members, member_id(id)) >= 0
}

pub open spec fn is_ui_session(ui_sessions: Seq<UiSession>, id: Seq<char>) -> bool {
    first_index(ui_sessions, ui_id(id)) >= 0
}

/// The members of the bundle a group was opened for: the sender's own, or
/// those its catalog entry loaded.
pub open spec fn group_members(
    sender: BundleConfiguration,
    catalog: Seq<CatalogBundle>,
    name: Seq<char>,
) -> Seq<BundleMember> {
    if name == sender.bundle_name@ {
        sender.members@
    } else {
        catalog[first_index(catalog, named_bundle(name))].configuration->Ok_0.members@
    }
}

/// `state` with `target` added to the group named `name`.
pub open spec fn add_target(state: GroupingState, name: Seq<char>, target: TargetView) -> GroupingState {
    let i = first_index(state.groups, named_group(name));
    GroupingState {
        groups: state.groups.update(
            i,
            GroupView { targets: state.groups[i].targets.push(target), ..state.groups[i] },
        ),
        ..state
    }
}

pub open spec fn add_unknown(state: GroupingState, target: Seq<char>) -> GroupingState {
    GroupingState { unknown: state.unknown.push(target), ..state }
}

/// A member target of the bundle `name`, once its group is open.
pub open spec fn member_target(
    sender: BundleConfiguration,
    catalog: Seq<CatalogBundle>,
    state: GroupingState,
    name: Seq<char>,
    session_id: Seq<char>,
    target: Seq<char>,
) -> GroupingState {
    if is_member(group_members(sender, catalog, name), session_id) {
        add_target(state, name, TargetView { session_id, is_ui: false })
    } else {
        add_unknown(state, target)
    }
}

/// The state after resolving one more target, or the error that refuses the
/// whole send.
pub open spec fn resolve_step(
    sender: BundleConfiguration,
    ui_sessions: Seq<UiSession>,
    catalog: Seq<CatalogBundle>,
    state: GroupingState,
    target: Seq<char>,
) -> Result<GroupingState, RelayErrorView> {
    let requested = spec_trim(target);
    if requested.len() == 0 {
        Ok(add_unknown(state, target))
    } else {
        match spec_classify(requested) {
            Some(PrincipalType::Application) | Some(PrincipalType::Relay) => Err(
                error_view(
                    "validation_unsupported_namespace"@,
                    "target namespace is reserved for relay-internal routing"@,
                    Some(
                        seq![
                            text_detail("target"@, requested),
                            text_detail("namespace"@, spec_split(requested).unwrap().1),
                        ],
                    ),
                ),
            ),
            Some(PrincipalType::User) => if is_ui_session(ui_sessions, requested) {
                Ok(add_target(state, sender.bundle_name@, TargetView { session_id: requested, is_ui: true }))
            } else {
                Ok(add_unknown(state, target))
            },
            Some(PrincipalType::Session) => {
                let session_id = spec_split(requested).unwrap().0;
                let name = spec_split(requested).unwrap().1;
                if name == sender.bundle_name@ || first_index(state.groups, named_group(name)) >= 0 {
                    Ok(member_target(sender, catalog, state, name, session_id, target))
                } else {
                    let c = first_index(catalog, named_bundle(name));
                    if c < 0 {
                        Ok(add_unknown(state, target))
                    } else {
                        match catalog[c].configuration {
                            Err(e) => Err(e@),
                            Ok(_) => Ok(
                                member_target(
                                    sender,
                                    catalog,
                                    GroupingState {
                                        groups: state.groups.push(
                                            GroupView { bundle_name: name, targets: seq![] },
                                        ),
                                        ..state
                                    },
                                    name,
                                    session_id,
                                    target,
                                ),
                            ),
                        }
                    }
                }
            },
            None => {
                let m = is_member(sender.members@, requested);
                if m || is_ui_session(ui_sessions, requested) {
                    Ok(add_target(state, sender.bundle_name@, TargetView { session_id: requested, is_ui: !m }))
                } else {
                    Ok(add_unknown(state, target))
                }
            },
        }
    }
}

/// The state after resolving `targets` in order, starting from the sender's
/// own empty group.
pub open spec fn resolve_all(
    sender: BundleConfiguration,
    ui_sessions: Seq<UiSession>,
    catalog: Seq<CatalogBundle>,
    targets: Seq<Seq<char>>,
) -> Result<GroupingState, RelayErrorView>
    decreases targets.len(),
{
    if targets.len() == 0 {
        Ok(
            GroupingState {
                groups: seq![GroupView { bundle_name: sender.bundle_name@, targets: seq![] }],
                unknown: seq![],
            },
        )
    } else {
        match resolve_all(sender, ui_sessions, catalog, targets.drop_last()) {
            Err(e) => Err(e),
            Ok(state) => resolve_step(sender, ui_sessions, catalog, state, targets.last()),
        }
    }
}

pub open spec fn non_empty() -> spec_fn(GroupView) -> bool {
    |g: GroupView| g.targets.len() > 0
}

/// What a send's targets resolve to: the refusing error, the accumulated
/// unknown targets, or the non-empty groups in the order they were opened.
pub open spec fn spec_resolve_target_groups(
    sender: BundleConfiguration,
    ui_sessions: Seq<UiSession>,
    catalog: Seq<CatalogBundle>,
    targets: Seq<Seq<char>>,
) -> Result<Seq<GroupView>, RelayErrorView> {
    match resolve_all(sender, ui_sessions, catalog, targets) {
        Err(e) => Err(e),
        Ok(state) => if state.unknown.len() > 0 {
            Err(
                error_view(
                    "validation_unknown_target"@,
                    "one or more targets are not canonical configured target identifiers"@,
                    Some(
                        seq![
                            DetailView {
                                key: "unknown_targets"@,
                                value: DetailValueView::Texts(state.unknown),
                            },
                        ],
                    ),
                ),
            )
        } else {
            Ok(state.groups.filter(non_empty()))
        },
    }
}

/// The exec state of a resolution: the groups opened so far, with where each
/// group's bundle came from (`None` for the sender's own), and the unknown
/// targets.
struct Grouping {
    groups: Vec<DeliveryGroup>,
    sources: Vec<Option<usize>>,
    unknown: Vec<String>,
}

pub open spec fn groups_view(groups: Seq<DeliveryGroup>) -> Seq<GroupView> {
    groups.map_values(|g: DeliveryGroup| g@)
}

/// The shape every grouping state keeps: the sender's group first, every
/// other group opened from a loaded catalog bundle, no two groups alike.
spec fn well_formed(
    sender: BundleConfiguration,
    catalog: Seq<CatalogBundle>,
    g: Grouping,
) -> bool {
    let groups = groups_view(g.groups@);
    &&& g.sources@.len() == g.groups@.len()
    &&& groups.len() >= 1
    &&& groups[0].bundle_name == sender.bundle_name@
    &&& g.sources@[0] is None
    &&& forall|k: int|
        1 <= k < groups.len() ==> {
            let c = (#[trigger] g.sources@[k]);
            &&& c is Some
            &&& c.unwrap() < catalog.len()
            &&& c.unwrap() as int == first_index(catalog, named_bundle(groups[k].bundle_name))
            &&& catalog[c.unwrap() as int].configuration is Ok
            &&& groups[k].bundle_name != sender.bundle_name@
        }
    &&& forall|a: int, b: int|
        0 <= a < groups.len() && 0 <= b < groups.len() && a != b ==> groups[a].bundle_name
            != groups[b].bundle_name
}

spec fn state_of(g: Grouping) -> GroupingState {
    GroupingState {
        groups: groups_view(g.groups@),
        unknown: g.unknown@.map_values(|s: String| s@),
    }
}

fn group_position(groups: &Vec<DeliveryGroup>, name: &str) -> (found: Option<usize>)
    ensures
        match found {
            Some(i) => i as int == first_index(groups_view(groups@), named_group(name@)) && i
                < groups@.len(),
            None => first_index(groups_view(groups@), named_group(name@)) == -1,
        },
{
    let ghost view = groups_view(groups@);
    let mut i: usize = 0;
    while i < groups.len()
        invariant
            i <= groups@.len(),
            view == groups_view(groups@),
            forall|j: int| 0 <= j < i ==> !named_group(name@)(#[trigger] view[j]),
        decreases groups@.len() - i,
    {
        if str_eq(groups[i].bundle_name.as_str(), name) {
            proof {
                assert(named_group(name@)(view[i as int]));
                lemma_first_index_is(view, named_group(name@), i as int);
            }
            return Some(i);
        }
        assert(!named_group(name@)(view[i as int]));
        i = i + 1;
    }
    proof {
        lemma_first_index(view, named_group(name@));
    }
    None
}

/// The position of the catalog bundle named `name`, if any.
pub fn catalog_position(catalog: &Vec<CatalogBundle>, name: &str) -> (found: Option<usize>)
    ensures
        match found {
            Some(i) => i as int == first_index(catalog@, named_bundle(name@)) && i < catalog@.len(),
            None => first_index(catalog@, named_bundle(name@)) == -1,
        },
{
    let mut i: usize = 0;
    while i < catalog.len()
        invariant
            i <= catalog@.len(),
            forall|j: int| 0 <= j < i ==> !named_bundle(name@)(#[trigger] catalog@[j]),
        decreases catalog@.len() - i,
    {
        if str_eq(catalog[i].bundle_name.as_str(), name) {
            proof {
                lemma_first_index_is(catalog@, named_bundle(name@), i as int);
            }
            return Some(i);
        }
        i = i + 1;
    }
    proof {
        lemma_first_index(catalog@, named_bundle(name@));
    }
    None
}

/// Adds `target` to the group at position `i`, which is the group named
/// `name`.
fn push_target(g: &mut Grouping, i: usize, target: ResolvedTarget, Ghost(name): Ghost<Seq<char>>)
    requires
        i < old(g).groups@.len(),
        old(g).sources@.len() == old(g).groups@.len(),
        i as int == first_index(groups_view(old(g).groups@), named_group(name)),
    ensures
        state_of(*final(g)) == add_target(state_of(*old(g)), name, target@),
        final(g).sources@ == old(g).sources@,
        final(g).groups@.len() == old(g).groups@.len(),
        forall|k: int|
            0 <= k < final(g).groups@.len() ==> (#[trigger] final(g).groups@[k]).bundle_name@
                == old(g).groups@[k].bundle_name@,
{
    let ghost before = groups_view(g.groups@);
    let mut group = g.groups.remove(i);
    let ghost old_targets = group.targets@.map_values(|t: ResolvedTarget| t@);
    group.targets.push(target);
    assert(group.targets@.map_values(|t: ResolvedTarget| t@) =~= old_targets.push(target@));
    g.groups.insert(i, group);
    assert(groups_view(g.groups@) =~= before.update(
        i as int,
        GroupView { targets: before[i as int].targets.push(target@), ..before[i as int] },
    ));
    assert forall|k: int| 0 <= k < g.groups@.len() implies (#[trigger] g.groups@[k]).bundle_name@
        == before[k].bundle_name by {
        assert(groups_view(g.groups@)[k].bundle_name == before[k].bundle_name);
    }
}

fn push_unknown(g: &mut Grouping, target: &String)
    ensures
        state_of(*final(g)) == add_unknown(state_of(*old(g)), target@),
        final(g).groups@ == old(g).groups@,
        final(g).sources@ == old(g).sources@,
{
    let ghost before = g.unknown@.map_values(|s: String| s@);
    g.unknown.push(target.clone());
    assert(g.unknown@.map_values(|s: String| s@) =~= before.push(target@));
}

/// Whether `id` is a member of the group at position `i`.
fn group_has_member(
    sender: &BundleConfiguration,
    catalog: &Vec<CatalogBundle>,
    g: &Grouping,
    i: usize,
    id: &str,
) -> (member: bool)
    requires
        well_formed(*sender, catalog@, *g),
        i < g.groups@.len(),
    ensures
        member == is_member(
            group_members(*sender, catalog@, g.groups@[i as int].bundle_name@),
            id@,
        ),
{
    let ghost groups = groups_view(g.groups@);
    assert(groups[i as int].bundle_name == g.groups@[i as int].bundle_name@);
    match g.sources[i] {
        None => {
            assert(i == 0) by {
                if i > 0 {
                    assert(g.sources@[i as int] is Some);
                }
            }
            find_member(sender, id).is_some()
        },
        Some(c) => {
            assert(i > 0);
            assert(g.groups@[i as int].bundle_name@ != sender.bundle_name@);
            match &catalog[c].configuration {
                Ok(bundle) => find_member(bundle, id).is_some(),
                Err(_) => false,
            }
        },
    }
}

/// A copy of a relay error.
pub fn copy_error(error: &RelayError) -> (copy: RelayError)
    ensures
        copy@ == error@,
{
    RelayError {
        code: error.code.clone(),
        message: error.message.clone(),
        details: crate::startup_state::copy_details(&error.details),
    }
}

/// The first group named like the first one is the first one.
proof fn lemma_sender_group_first(groups: Seq<GroupView>, name: Seq<char>)
    requires
        groups.len() >= 1,
        groups[0].bundle_name == name,
    ensures
        first_index(groups, named_group(name)) == 0,
{
    lemma_first_index_is(groups, named_group(name), 0);
}

/// A group pushed under a name no group had is found last.
proof fn lemma_new_group_last(groups: Seq<GroupView>, group: GroupView)
    requires
        first_index(groups, named_group(group.bundle_name)) == -1,
    ensures
        first_index(groups.push(group), named_group(group.bundle_name)) == groups.len(),
{
    let p = named_group(group.bundle_name);
    lemma_first_index(groups, p);
    let after = groups.push(group);
    assert forall|j: int| 0 <= j < groups.len() implies !p(#[trigger] after[j]) by {
        assert(after[j] == groups[j]);
    }
    lemma_first_index_is(after, p, groups.len() as int);
}

/// One step of the resolution.
fn resolve_one(
    sender: &BundleConfiguration,
    ui_sessions: &Vec<UiSession>,
    catalog: &Vec<CatalogBundle>,
    g: &mut Grouping,
    target: &String,
) -> (stepped: Result<(), RelayError>)
    requires
        well_formed(*sender, catalog@, *old(g)),
    ensures
        match resolve_step(*sender, ui_sessions@, catalog@, state_of(*old(g)), target@) {
            Ok(next) => stepped is Ok && state_of(*final(g)) == next && well_formed(
                *sender,
                catalog@,
                *final(g),
            ),
            Err(e) => stepped is Err && stepped->Err_0@ == e,
        },
{
    let requested = trim(target.as_str());
    let ghost sender_name = sender.bundle_name@;
    proof {
        lemma_sender_group_first(groups_view(g.groups@), sender_name);
    }
    if requested.as_str().is_empty() {
        push_unknown(g, target);
        return Ok(());
    }
    match classify_principal_id(requested.as_str()) {
        Some(PrincipalType::Application) | Some(PrincipalType::Relay) => {
            let namespace = match split_principal_id(requested.as_str()) {
                Some((_, namespace)) => namespace,
                None => "",
            };
            Err(
                relay_error(
                    "validation_unsupported_namespace",
                    "target namespace is reserved for relay-internal routing",
                    two_details(
                        text_field("target", requested.as_str()),
                        text_field("namespace", namespace),
                    ),
                ),
            )
        },
        Some(PrincipalType::User) => {
            if find_ui_session(ui_sessions, requested.as_str()).is_some() {
                push_target(
                    g,
                    0,
                    ResolvedTarget { session_id: requested, is_ui: true },
                    Ghost(sender_name),
                );
            } else {
                push_unknown(g, target);
            }
            Ok(())
        },
        Some(PrincipalType::Session) => {
            let (session_id, name) = match split_principal_id(requested.as_str()) {
                Some(parts) => parts,
                None => ("", ""),
            };
            let existing = if str_eq(name, sender.bundle_name.as_str()) {
                Some(0)
            } else {
                group_position(&g.groups, name)
            };
            match existing {
                Some(i) => {
                    assert(g.groups@[i as int].bundle_name@ == name@) by {
                        lemma_first_index(groups_view(g.groups@), named_group(name@));
                    }
                    if group_has_member(sender, catalog, g, i, session_id) {
                        push_target(
                            g,
                            i,
                            ResolvedTarget { session_id: owned(session_id), is_ui: false },
                            Ghost(name@),
                        );
                    } else {
                        push_unknown(g, target);
                    }
                    Ok(())
                },
                None => match catalog_position(catalog, name) {
                    None => {
                        push_unknown(g, target);
                        Ok(())
                    },
                    Some(c) => match &catalog[c].configuration {
                        Err(e) => Err(copy_error(e)),
                        Ok(_) => {
                            let ghost before = groups_view(g.groups@);
                            let ghost before_sources = g.sources@;
                            proof {
                                lemma_first_index(before, named_group(name@));
                            }
                            let fresh = DeliveryGroup { bundle_name: owned(name), targets: Vec::new() };
                            assert(fresh@.targets =~= Seq::<TargetView>::empty());
                            g.groups.push(fresh);
                            g.sources.push(Some(c));
                            let i = g.groups.len() - 1;
                            proof {
                                let opened = GroupView { bundle_name: name@, targets: seq![] };
                                assert(groups_view(g.groups@) =~= before.push(opened));
                                lemma_new_group_last(before, opened);
                                let after = groups_view(g.groups@);
                                assert forall|k: int|
                                    1 <= k < after.len() implies {
                                    let src = (#[trigger] g.sources@[k]);
                                    &&& src is Some
                                    &&& src.unwrap() < catalog@.len()
                                    &&& src.unwrap() as int == first_index(
                                        catalog@,
                                        named_bundle(after[k].bundle_name),
                                    )
                                    &&& catalog@[src.unwrap() as int].configuration is Ok
                                    &&& after[k].bundle_name != sender.bundle_name@
                                } by {
                                    if k < before.len() {
                                        assert(g.sources@[k] == before_sources[k]);
                                        assert(after[k] == before[k]);
                                    }
                                }
                                assert forall|a: int, b: int|
                                    0 <= a < after.len() && 0 <= b < after.len() && a != b implies after[a].bundle_name
                                    != after[b].bundle_name by {
                                    if a == before.len() {
                                        assert(!named_group(name@)(before[b]));
                                    } else if b == before.len() {
                                        assert(!named_group(name@)(before[a]));
                                    } else {
                                        assert(after[a] == before[a] && after[b] == before[b]);
                                    }
                                }
                                assert(g.sources@[0] == before_sources[0]);
                            }
                            if group_has_member(sender, catalog, g, i, session_id) {
                                push_target(
                                    g,
                                    i,
                                    ResolvedTarget { session_id: owned(session_id), is_ui: false },
                                    Ghost(name@),
                                );
                            } else {
                                push_unknown(g, target);
                            }
                            Ok(())
                        },
                    },
                },
            }
        },
        None => {
            let m = find_member(sender, requested.as_str()).is_some();
            if m || find_ui_session(ui_sessions, requested.as_str()).is_some() {
                push_target(
                    g,
                    0,
                    ResolvedTarget { session_id: requested, is_ui: !m },
                    Ghost(sender_name),
                );
            } else {
                push_unknown(g, target);
            }
            Ok(())
        },
    }
}

/// An error while resolving a prefix of the targets is the error of the
/// whole resolution.
proof fn lemma_error_persists(
    sender: BundleConfiguration,
    ui_sessions: Seq<UiSession>,
    catalog: Seq<CatalogBundle>,
    targets: Seq<Seq<char>>,
    n: int,
)
    requires
        0 <= n <= targets.len(),
        resolve_all(sender, ui_sessions, catalog, targets.take(n)) is Err,
    ensures
        resolve_all(sender, ui_sessions, catalog, targets) == resolve_all(
            sender,
            ui_sessions,
            catalog,
            targets.take(n),
        ),
    decreases targets.len(),
{
    if targets.len() == n {
        assert(targets.take(n) =~= targets);
    } else {
        assert(targets.drop_last().take(n) =~= targets.take(n));
        lemma_error_persists(sender, ui_sessions, catalog, targets.drop_last(), n);
    }
}

/// Resolves a send's explicit targets into per-bundle delivery groups, or the
/// error that refuses the send: a reserved namespace, a catalog bundle that
/// failed to load, or every unknown target at once.
pub fn resolve_target_groups(
    sender: &BundleConfiguration,
    ui_sessions: &Vec<UiSession>,
    catalog: &Vec<CatalogBundle>,
    targets: &Vec<String>,
) -> (resolved: Result<Vec<DeliveryGroup>, RelayError>)
    ensures
        match spec_resolve_target_groups(
            *sender,
            ui_sessions@,
            catalog@,
            targets@.map_values(|t: String| t@),
        ) {
            Ok(groups) => resolved is Ok && groups_view(resolved->Ok_0@) == groups,
            Err(e) => resolved is Err && resolved->Err_0@ == e,
        },
{
    let ghost all = targets@.map_values(|t: String| t@);
    let mut g = Grouping { groups: Vec::new(), sources: Vec::new(), unknown: Vec::new() };
    let own = DeliveryGroup { bundle_name: sender.bundle_name.clone(), targets: Vec::new() };
    assert(own@.targets =~= Seq::<TargetView>::empty());
    g.groups.push(own);
    g.sources.push(None);
    proof {
        assert(groups_view(g.groups@) =~= seq![
            GroupView { bundle_name: sender.bundle_name@, targets: seq![] },
        ]);
        assert(g.unknown@.map_values(|s: String| s@) =~= Seq::<Seq<char>>::empty());
        assert(all.take(0) =~= Seq::<Seq<char>>::empty());
    }
    let mut i: usize = 0;
    while i < targets.len()
        invariant
            i <= targets@.len(),
            all == targets@.map_values(|t: String| t@),
            well_formed(*sender, catalog@, g),
            resolve_all(*sender, ui_sessions@, catalog@, all.take(i as int)) == Ok::<
                GroupingState,
                RelayErrorView,
            >(state_of(g)),
        decreases targets@.len() - i,
    {
        let ghost before = state_of(g);
        assert(all.take(i + 1).drop_last() =~= all.take(i as int));
        assert(all.take(i + 1).last() == targets@[i as int]@);
        match resolve_one(sender, ui_sessions, catalog, &mut g, &targets[i]) {
            Err(e) => {
                proof {
                    lemma_error_persists(*sender, ui_sessions@, catalog@, all, i + 1);
                }
                return Err(e);
            },
            Ok(()) => {},
        }
        i = i + 1;
    }
    assert(all.take(targets@.len() as int) =~= all);
    if g.unknown.len() > 0 {
        let ghost unknown = g.unknown@.map_values(|s: String| s@);
        let unknown_targets = g.unknown;
        let mut details: Vec<Detail> = Vec::new();
        details.push(
            Detail {
                key: String::from_str("unknown_targets"),
                value: DetailValue::Texts(unknown_targets),
            },
        );
        assert(details@.map_values(|d: Detail| d@) =~= seq![
            DetailView { key: "unknown_targets"@, value: DetailValueView::Texts(unknown) },
        ]);
        return Err(
            relay_error(
                "validation_unknown_target",
                "one or more targets are not canonical configured target identifiers",
                Some(details),
            ),
        );
    }
    let ghost opened = groups_view(g.groups@);
    let mut rest = g.groups;
    let total = rest.len();
    let mut kept: Vec<DeliveryGroup> = Vec::new();
    let mut k: usize = 0;
    while rest.len() > 0
        invariant
            rest@.len() + k == total,
            total == opened.len(),
            forall|j: int| 0 <= j < rest@.len() ==> #[trigger] rest@[j]@ == opened[k + j],
            groups_view(kept@) == opened.subrange(0, k as int).filter(non_empty()),
        decreases rest@.len(),
    {
        let group = rest.remove(0);
        assert(group@ == opened[k as int]);
        proof {
            lemma_filter_step(opened, non_empty(), k as int);
        }
        let ghost kept_before = groups_view(kept@);
        if group.targets.len() > 0 {
            kept.push(group);
            assert(groups_view(kept@) =~= kept_before.push(opened[k as int]));
        }
        assert forall|j: int| 0 <= j < rest@.len() implies #[trigger] rest@[j]@ == opened[k + 1
            + j] by {}
        k = k + 1;
    }
    assert(opened.subrange(0, total as int) =~= opened);
    Ok(kept)
}

} // verus!
