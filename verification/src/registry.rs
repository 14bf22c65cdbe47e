//! The unified registry: every principal the relay knows, connected or not.
//!
//! Offline is a state, not absence: configured members and declared relay-wide
//! users are registered as static (offline) entries before the relay serves
//! requests, and a live connection later flips the same entry online.
//! Registration is idempotent: it refreshes an entry's session type and keeps
//! whatever connection state is already attached.
use vstd::prelude::*;

use crate::configuration::{
    BundleConfiguration, BundleMember, MemberView, SessionType, UserSession, UsersConfiguration,
};
use crate::identity::{
    canonical_session_id, global_suffix, lemma_split_canonical, spec_canonical, spec_split,
    split_principal_id,
};
use crate::seqs::{first_index, lemma_filter_step, lemma_first_index, lemma_first_index_is};
use crate::text::{lacks, seq_ends_with, str_eq};

verus! {

/// One registered principal.
pub struct RegistryEntry {
    pub principal_id: String,
    pub session_type: SessionType,
    pub online: bool,
}

pub struct EntryView {
    pub principal_id: Seq<char>,
    pub session_type: SessionType,
    pub online: bool,
}

impl View for RegistryEntry {
    type V = EntryView;

    open spec fn view(&self) -> EntryView {
        EntryView {
            principal_id: self.principal_id@,
            session_type: self.session_type,
            online: self.online,
        }
    }
}

/// Whether an entry is registered under `id`.
pub open spec fn has_id(id: Seq<char>) -> spec_fn(EntryView) -> bool {
    |e: EntryView| e.principal_id == id
}

/// Whether an entry's principal lives in `namespace`.
pub open spec fn in_namespace(namespace: Seq<char>) -> spec_fn(EntryView) -> bool {
    |e: EntryView|
        match spec_split(e.principal_id) {
            Some(parts) => parts.1 == namespace,
            None => false,
        }
}

/// No two entries share a principal id.
pub open spec fn ids_distinct(entries: Seq<EntryView>) -> bool {
    forall|a: int, b: int|
        0 <= a < entries.len() && 0 <= b < entries.len() && a != b ==> entries[a].principal_id
            != entries[b].principal_id
}

/// The registry after registering `id` as a `session_type` principal: an
/// existing entry keeps its connection state and takes the new type; a new
/// entry starts offline.
pub open spec fn spec_register(entries: Seq<EntryView>, id: Seq<char>, session_type: SessionType) -> Seq<
    EntryView,
> {
    let i = first_index(entries, has_id(id));
    if i >= 0 {
        entries.update(i, EntryView { session_type, ..entries[i] })
    } else {
        entries.push(EntryView { principal_id: id, session_type, online: false })
    }
}

/// The registry after a sequence of registrations, in order.
pub open spec fn spec_register_all(
    entries: Seq<EntryView>,
    registrations: Seq<(Seq<char>, SessionType)>,
) -> Seq<EntryView>
    decreases registrations.len(),
{
    if registrations.len() == 0 {
        entries
    } else {
        spec_register(
            spec_register_all(entries, registrations.drop_last()),
            registrations.last().0,
            registrations.last().1,
        )
    }
}

/// The registrations a bundle's members make: each under its canonical id.
pub open spec fn bundle_registrations(bundle_name: Seq<char>, members: Seq<MemberView>) -> Seq<
    (Seq<char>, SessionType),
> {
    members.map_values(|m: MemberView| (spec_canonical(m.id, bundle_name), m.target))
}

/// The registrations declared relay-wide sessions make, under their own ids.
pub open spec fn user_registrations(sessions: Seq<MemberView>) -> Seq<(Seq<char>, SessionType)> {
    sessions.map_values(|m: MemberView| (m.id, m.target))
}

/// The registry of known principals.
pub struct UnifiedRegistry {
    entries: Vec<RegistryEntry>,
}

impl UnifiedRegistry {
    #[verifier::type_invariant]
    closed spec fn distinct(&self) -> bool {
        ids_distinct(self.entries@.map_values(|e: RegistryEntry| e@))
    }

    /// The registered principals, in registration order.
    pub closed spec fn entries(&self) -> Seq<EntryView> {
        self.entries@.map_values(|e: RegistryEntry| e@)
    }

    /// An empty registry.
    pub fn new() -> (registry: Self)
        ensures
            registry.entries() == Seq::<EntryView>::empty(),
    {
        let registry = UnifiedRegistry { entries: Vec::new() };
        assert(registry.entries() =~= Seq::<EntryView>::empty());
        registry
    }

    /// No two registered principals share an id.
    pub fn has_distinct_ids(&self) -> (distinct: bool)
        ensures
            distinct,
            ids_distinct(self.entries()),
    {
        proof {
            use_type_invariant(self);
        }
        true
    }

    /// The position of `id`, searched from the start.
    fn position(&self, id: &str) -> (found: Option<usize>)
        ensures
            match found {
                Some(i) => i as int == first_index(self.entries(), has_id(id@)) && i
                    < self.entries@.len(),
                None => first_index(self.entries(), has_id(id@)) == -1,
            },
    {
        let ghost entries = self.entries();
        let mut i: usize = 0;
        while i < self.entries.len()
            invariant
                i <= self.entries@.len(),
                entries == self.entries@.map_values(|e: RegistryEntry| e@),
                forall|j: int| 0 <= j < i ==> !has_id(id@)(#[trigger] entries[j]),
            decreases self.entries@.len() - i,
        {
            if str_eq(self.entries[i].principal_id.as_str(), id) {
                proof {
                    lemma_first_index_is(entries, has_id(id@), i as int);
                }
                return Some(i);
            }
            i = i + 1;
        }
        proof {
            lemma_first_index(entries, has_id(id@));
        }
        None
    }

    /// The session type registered under `principal_id`, if any.
    pub fn lookup_session_type(&self, principal_id: &str) -> (found: Option<SessionType>)
        ensures
            first_index(self.entries(), has_id(principal_id@)) < 0 ==> found is None,
            first_index(self.entries(), has_id(principal_id@)) >= 0 ==> found == Some(
                self.entries()[first_index(self.entries(), has_id(principal_id@))].session_type,
            ),
    {
        match self.position(principal_id) {
            Some(i) => Some(self.entries[i].session_type),
            None => None,
        }
    }

    /// Registers `principal_id` as a `session_type` principal.
    pub fn register_configured_session(&mut self, principal_id: &str, session_type: SessionType)
        ensures
            final(self).entries() == spec_register(old(self).entries(), principal_id@, session_type),
    {
        proof {
            use_type_invariant(&*self);
            lemma_register_keeps_ids_distinct(self.entries(), principal_id@, session_type);
        }
        let found = self.position(principal_id);
        let mut entries: Vec<RegistryEntry> = Vec::new();
        std::mem::swap(&mut entries, &mut self.entries);
        let ghost before = entries@.map_values(|e: RegistryEntry| e@);
        match found {
            Some(i) => {
                let kept = RegistryEntry {
                    principal_id: entries[i].principal_id.clone(),
                    session_type,
                    online: entries[i].online,
                };
                entries.set(i, kept);
                assert(entries@.map_values(|e: RegistryEntry| e@) =~= spec_register(
                    before,
                    principal_id@,
                    session_type,
                ));
            },
            None => {
                entries.push(
                    RegistryEntry {
                        principal_id: String::from_str(principal_id),
                        session_type,
                        online: false,
                    },
                );
                assert(entries@.map_values(|e: RegistryEntry| e@) =~= spec_register(
                    before,
                    principal_id@,
                    session_type,
                ));
            },
        }
        self.entries = entries;
    }

    /// Records whether the principal registered under `principal_id` is
    /// connected; reports whether it is registered at all.
    pub fn set_online(&mut self, principal_id: &str, online: bool) -> (registered: bool)
        ensures
            registered == (first_index(old(self).entries(), has_id(principal_id@)) >= 0),
            registered ==> final(self).entries() == old(self).entries().update(
                first_index(old(self).entries(), has_id(principal_id@)),
                EntryView {
                    online,
                    ..old(self).entries()[first_index(old(self).entries(), has_id(principal_id@))]
                },
            ),
            !registered ==> final(self).entries() == old(self).entries(),
    {
        proof {
            use_type_invariant(&*self);
        }
        let found = self.position(principal_id);
        match found {
            Some(i) => {
                let mut entries: Vec<RegistryEntry> = Vec::new();
                std::mem::swap(&mut entries, &mut self.entries);
                let ghost before = entries@.map_values(|e: RegistryEntry| e@);
                let kept = RegistryEntry {
                    principal_id: entries[i].principal_id.clone(),
                    session_type: entries[i].session_type,
                    online,
                };
                entries.set(i, kept);
                proof {
                    let after = entries@.map_values(|e: RegistryEntry| e@);
                    assert(after =~= before.update(
                        i as int,
                        EntryView { online, ..before[i as int] },
                    ));
                    assert forall|a: int, b: int|
                        0 <= a < after.len() && 0 <= b < after.len() && a != b implies after[a].principal_id
                        != after[b].principal_id by {
                        assert(after[a].principal_id == before[a].principal_id);
                        assert(after[b].principal_id == before[b].principal_id);
                    }
                }
                self.entries = entries;
                true
            },
            None => false,
        }
    }
}

/// Registering keeps ids distinct.
proof fn lemma_register_keeps_ids_distinct(
    entries: Seq<EntryView>,
    id: Seq<char>,
    session_type: SessionType,
)
    requires
        ids_distinct(entries),
    ensures
        ids_distinct(spec_register(entries, id, session_type)),
{
    lemma_first_index(entries, has_id(id));
    let after = spec_register(entries, id, session_type);
    let i = first_index(entries, has_id(id));
    assert forall|a: int, b: int|
        0 <= a < after.len() && 0 <= b < after.len() && a != b implies after[a].principal_id
        != after[b].principal_id by {
        if i < 0 {
            if a == entries.len() {
                assert(!has_id(id)(entries[b]));
            } else if b == entries.len() {
                assert(!has_id(id)(entries[a]));
            }
        }
    }
}

/// Registration never loses an id, and leaves the registered id present.
proof fn lemma_register_keeps_ids(entries: Seq<EntryView>, id: Seq<char>, session_type: SessionType)
    ensures
        first_index(spec_register(entries, id, session_type), has_id(id)) >= 0,
        forall|other: Seq<char>|
            first_index(entries, has_id(other)) >= 0 ==> first_index(
                #[trigger] spec_register(entries, id, session_type),
                has_id(other),
            ) >= 0,
{
    let after = spec_register(entries, id, session_type);
    lemma_first_index(entries, has_id(id));
    lemma_first_index(after, has_id(id));
    let i = first_index(entries, has_id(id));
    if i < 0 {
        assert(has_id(id)(after[entries.len() as int]));
    } else {
        assert(has_id(id)(after[i]));
    }
    assert forall|other: Seq<char>| first_index(entries, has_id(other)) >= 0 implies first_index(
        #[trigger] spec_register(entries, id, session_type),
        has_id(other),
    ) >= 0 by {
        lemma_first_index(entries, has_id(other));
        lemma_first_index(after, has_id(other));
        let k = first_index(entries, has_id(other));
        assert(after[k].principal_id == entries[k].principal_id);
        assert(has_id(other)(after[k]));
    }
}

/// Registers every registration in `registrations`, in order.
fn register_each(registry: &mut UnifiedRegistry, ids: &Vec<String>, types: &Vec<SessionType>)
    requires
        ids@.len() == types@.len(),
    ensures
        final(registry).entries() == spec_register_all(
            old(registry).entries(),
            ids@.map_values(|s: String| s@).zip_with(types@),
        ),
{
    let ghost registrations = ids@.map_values(|s: String| s@).zip_with(types@);
    let mut i: usize = 0;
    while i < ids.len()
        invariant
            i <= ids@.len(),
            ids@.len() == types@.len(),
            registrations == ids@.map_values(|s: String| s@).zip_with(types@),
            registry.entries() == spec_register_all(
                old(registry).entries(),
                registrations.subrange(0, i as int),
            ),
        decreases ids@.len() - i,
    {
        registry.register_configured_session(ids[i].as_str(), types[i]);
        assert(registrations.subrange(0, i + 1).drop_last() =~= registrations.subrange(0, i as int));
        i = i + 1;
    }
    assert(registrations.subrange(0, ids@.len() as int) =~= registrations);
}

/// Registers every configured member of `bundle`, under its canonical id, as
/// a static entry, without starting any transport.
pub fn register_configured_bundle(registry: &mut UnifiedRegistry, bundle: &BundleConfiguration)
    ensures
        final(registry).entries() == spec_register_all(
            old(registry).entries(),
            bundle_registrations(bundle.bundle_name@, bundle.members_view()),
        ),
        ids_distinct(old(registry).entries()),
        ids_distinct(final(registry).entries()),
{
    proof {
        use_type_invariant(&*registry);
    }
    let mut ids: Vec<String> = Vec::new();
    let mut types: Vec<SessionType> = Vec::new();
    let mut i: usize = 0;
    while i < bundle.members.len()
        invariant
            i <= bundle.members@.len(),
            ids@.len() == i,
            types@.len() == i,
            forall|j: int|
                0 <= j < i ==> #[trigger] ids@[j]@ == spec_canonical(
                    bundle.members@[j].id@,
                    bundle.bundle_name@,
                ),
            forall|j: int| 0 <= j < i ==> #[trigger] types@[j] == bundle.members@[j].target,
        decreases bundle.members@.len() - i,
    {
        let member: &BundleMember = &bundle.members[i];
        let id = canonical_session_id(member.id.as_str(), bundle.bundle_name.as_str());
        assert(id@ == spec_canonical(bundle.members@[i as int].id@, bundle.bundle_name@));
        ids.push(id);
        types.push(member.target);
        assert(ids@[i as int]@ == spec_canonical(bundle.members@[i as int].id@, bundle.bundle_name@));
        i = i + 1;
    }
    assert(ids@.map_values(|s: String| s@).zip_with(types@) =~= bundle_registrations(
        bundle.bundle_name@,
        bundle.members_view(),
    ));
    register_each(registry, &ids, &types);
    proof {
        use_type_invariant(&*registry);
    }
}

/// Registers the relay-wide sessions the users configuration declares as
/// static entries; with no users configuration there is nothing to register.
pub fn register_configured_relay_wide_principals(
    registry: &mut UnifiedRegistry,
    users: Option<&UsersConfiguration>,
)
    ensures
        users is None ==> final(registry).entries() == old(registry).entries(),
        users is Some ==> final(registry).entries() == spec_register_all(
            old(registry).entries(),
            user_registrations(users.unwrap().sessions_view()),
        ),
{
    let users = match users {
        None => {
            return ;
        },
        Some(users) => users,
    };
    let mut ids: Vec<String> = Vec::new();
    let mut types: Vec<SessionType> = Vec::new();
    let mut i: usize = 0;
    while i < users.sessions.len()
        invariant
            i <= users.sessions@.len(),
            ids@.len() == i,
            types@.len() == i,
            forall|j: int| 0 <= j < i ==> #[trigger] ids@[j]@ == users.sessions@[j].id@,
            forall|j: int| 0 <= j < i ==> #[trigger] types@[j] == users.sessions@[j].session_type,
        decreases users.sessions@.len() - i,
    {
        let session: &UserSession = &users.sessions[i];
        ids.push(session.id.clone());
        types.push(session.session_type);
        i = i + 1;
    }
    assert(ids@.map_values(|s: String| s@).zip_with(types@) =~= user_registrations(
        users.sessions_view(),
    ));
    register_each(registry, &ids, &types);
}

/// The principal ids registered in `namespace`, connected or not, in
/// registration order.
pub fn registered_principal_ids(registry: &UnifiedRegistry, namespace: &str) -> (ids: Vec<String>)
    ensures
        ids@.map_values(|s: String| s@) == registry.entries().filter(in_namespace(
            namespace@,
        )).map_values(|e: EntryView| e.principal_id),
{
    let ghost entries = registry.entries();
    let mut ids: Vec<String> = Vec::new();
    let mut i: usize = 0;
    while i < registry.entries.len()
        invariant
            i <= registry.entries@.len(),
            entries == registry.entries(),
            entries == registry.entries@.map_values(|e: RegistryEntry| e@),
            ids@.map_values(|s: String| s@) == entries.subrange(0, i as int).filter(
                in_namespace(namespace@),
            ).map_values(|e: EntryView| e.principal_id),
        decreases registry.entries@.len() - i,
    {
        let entry: &RegistryEntry = &registry.entries[i];
        proof {
            lemma_filter_step(entries, in_namespace(namespace@), i as int);
        }
        let keep = match split_principal_id(entry.principal_id.as_str()) {
            Some(parts) => str_eq(parts.1, namespace),
            None => false,
        };
        assert(entries[i as int] == entry@);
        assert(keep == in_namespace(namespace@)(entries[i as int]));
        let ghost before_ids = ids@.map_values(|s: String| s@);
        let ghost kept = entries.subrange(0, i as int).filter(in_namespace(namespace@));
        if keep {
            ids.push(entry.principal_id.clone());
            assert(ids@.map_values(|s: String| s@) =~= before_ids.push(entry.principal_id@));
            assert(kept.push(entries[i as int]).map_values(|e: EntryView| e.principal_id)
                =~= kept.map_values(|e: EntryView| e.principal_id).push(
                entries[i as int].principal_id,
            ));
        }
        i = i + 1;
    }
    assert(entries.subrange(0, entries.len() as int) =~= entries);
    ids
}

/// What listing reads of an entry: its id, its session type, and whether a
/// live connection is attached.
pub open spec fn listed_entry(e: EntryView) -> (Seq<char>, SessionType, bool) {
    (e.principal_id, e.session_type, e.online)
}

/// Every principal registered in `namespace`, in registration order, with its
/// session type and whether it is connected (offline declared principals
/// included).
pub fn namespace_sessions(registry: &UnifiedRegistry, namespace: &str) -> (sessions: Vec<
    (String, SessionType, bool),
>)
    ensures
        sessions@.map_values(|s: (String, SessionType, bool)| (s.0@, s.1, s.2))
            == registry.entries().filter(in_namespace(namespace@)).map_values(
            |e: EntryView| listed_entry(e),
        ),
{
    let ghost entries = registry.entries();
    let mut sessions: Vec<(String, SessionType, bool)> = Vec::new();
    let mut i: usize = 0;
    while i < registry.entries.len()
        invariant
            i <= registry.entries@.len(),
            entries == registry.entries(),
            entries == registry.entries@.map_values(|e: RegistryEntry| e@),
            sessions@.map_values(|s: (String, SessionType, bool)| (s.0@, s.1, s.2))
                == entries.subrange(0, i as int).filter(in_namespace(namespace@)).map_values(
                |e: EntryView| listed_entry(e),
            ),
        decreases registry.entries@.len() - i,
    {
        let entry: &RegistryEntry = &registry.entries[i];
        proof {
            lemma_filter_step(entries, in_namespace(namespace@), i as int);
        }
        let keep = match split_principal_id(entry.principal_id.as_str()) {
            Some(parts) => str_eq(parts.1, namespace),
            None => false,
        };
        assert(entries[i as int] == entry@);
        assert(keep == in_namespace(namespace@)(entries[i as int]));
        let ghost before = sessions@.map_values(|s: (String, SessionType, bool)| (s.0@, s.1, s.2));
        let ghost kept = entries.subrange(0, i as int).filter(in_namespace(namespace@));
        if keep {
            sessions.push((entry.principal_id.clone(), entry.session_type, entry.online));
            assert(sessions@.map_values(|s: (String, SessionType, bool)| (s.0@, s.1, s.2))
                =~= before.push(listed_entry(entries[i as int])));
            assert(kept.push(entries[i as int]).map_values(|e: EntryView| listed_entry(e))
                =~= kept.map_values(|e: EntryView| listed_entry(e)).push(
                listed_entry(entries[i as int]),
            ));
        }
        i = i + 1;
    }
    assert(entries.subrange(0, entries.len() as int) =~= entries);
    sessions
}

/// Registration is idempotent, keeps connection state, and leaves the
/// principal registered under the requested type.
pub proof fn lemma_registration_is_idempotent(
    entries: Seq<EntryView>,
    id: Seq<char>,
    session_type: SessionType,
)
    ensures
        spec_register(spec_register(entries, id, session_type), id, session_type)
            == spec_register(entries, id, session_type),
        first_index(entries, has_id(id)) >= 0 ==> spec_register(entries, id, session_type)[first_index(
            entries,
            has_id(id),
        )].online == entries[first_index(entries, has_id(id))].online,
        ({
            let after = spec_register(entries, id, session_type);
            let i = first_index(after, has_id(id));
            i >= 0 && after[i].session_type == session_type
        }),
{
    lemma_first_index(entries, has_id(id));
    let once = spec_register(entries, id, session_type);
    lemma_register_keeps_ids(entries, id, session_type);
    lemma_first_index(once, has_id(id));
    let i = first_index(entries, has_id(id));
    if i >= 0 {
        lemma_first_index_is(once, has_id(id), i);
        assert(spec_register(once, id, session_type) =~= once);
    } else {
        let k = entries.len() as int;
        assert(has_id(id)(once[k]));
        assert forall|j: int| 0 <= j < k implies !has_id(id)(#[trigger] once[j]) by {
            assert(once[j] == entries[j]);
        }
        lemma_first_index_is(once, has_id(id), k);
        assert(spec_register(once, id, session_type) =~= once);
    }
}

/// The session type the last registration of `id` in `registrations` asks
/// for, if any registers it.
pub open spec fn last_type(registrations: Seq<(Seq<char>, SessionType)>, id: Seq<char>) -> Option<
    SessionType,
>
    decreases registrations.len(),
{
    if registrations.len() == 0 {
        None
    } else if registrations.last().0 == id {
        Some(registrations.last().1)
    } else {
        last_type(registrations.drop_last(), id)
    }
}

/// The type an entry has after `registrations`: the last one asked for its
/// id, else the one it had.
pub open spec fn type_after(
    registrations: Seq<(Seq<char>, SessionType)>,
    entry: EntryView,
) -> SessionType {
    match last_type(registrations, entry.principal_id) {
        Some(t) => t,
        None => entry.session_type,
    }
}

/// What a sequence of registrations does to a registry whose ids are
/// distinct: existing entries keep their place, id and connection state and
/// take the last type asked for them; every registered id is present; new
/// entries come after, offline, under ids not registered before, with the
/// last type asked for them.
proof fn lemma_register_all_shape(
    entries: Seq<EntryView>,
    registrations: Seq<(Seq<char>, SessionType)>,
)
    requires
        ids_distinct(entries),
    ensures
        ({
            let after = spec_register_all(entries, registrations);
            &&& ids_distinct(after)
            &&& after.len() >= entries.len()
            &&& forall|k: int|
                0 <= k < entries.len() ==> (#[trigger] after[k]).principal_id
                    == entries[k].principal_id && after[k].online == entries[k].online
                    && after[k].session_type == type_after(registrations, entries[k])
            &&& forall|k: int|
                entries.len() <= k < after.len() ==> !(#[trigger] after[k]).online && last_type(
                    registrations,
                    after[k].principal_id,
                ) == Some(after[k].session_type) && first_index(
                    entries,
                    has_id(after[k].principal_id),
                ) < 0
            &&& forall|id: Seq<char>|
                #[trigger] last_type(registrations, id) is Some ==> first_index(after, has_id(id))
                    >= 0
        }),
    decreases registrations.len(),
{
    if registrations.len() == 0 {
        return ;
    }
    let rest = registrations.drop_last();
    let (id, t) = registrations.last();
    lemma_register_all_shape(entries, rest);
    let before = spec_register_all(entries, rest);
    let after = spec_register_all(entries, registrations);
    assert(after == spec_register(before, id, t));
    lemma_register_keeps_ids_distinct(before, id, t);
    lemma_first_index(before, has_id(id));
    let i = first_index(before, has_id(id));
    assert forall|x: Seq<char>| #[trigger] last_type(registrations, x) == (if x == id {
        Some(t)
    } else {
        last_type(rest, x)
    }) by {}
    if i >= 0 {
        assert(after == before.update(i, EntryView { session_type: t, ..before[i] }));
        assert forall|k: int| 0 <= k < entries.len() implies (#[trigger] after[k]).principal_id
            == entries[k].principal_id && after[k].online == entries[k].online
            && after[k].session_type == type_after(registrations, entries[k]) by {
            assert(before[k].principal_id == entries[k].principal_id);
            if k != i {
                assert(before[k].principal_id != before[i].principal_id);
            }
        }
        assert forall|k: int| entries.len() <= k < after.len() implies !(
        #[trigger] after[k]).online && last_type(registrations, after[k].principal_id) == Some(
            after[k].session_type,
        ) && first_index(entries, has_id(after[k].principal_id)) < 0 by {
            assert(before[k].principal_id == after[k].principal_id);
            if k != i {
                assert(before[k].principal_id != before[i].principal_id);
            }
        }
        assert forall|x: Seq<char>| #[trigger] last_type(registrations, x) is Some implies first_index(
            after,
            has_id(x),
        ) >= 0 by {
            if x == id {
                assert(has_id(x)(after[i]));
                lemma_first_index(after, has_id(x));
            } else {
                lemma_first_index(before, has_id(x));
                let j = first_index(before, has_id(x));
                assert(has_id(x)(after[j]));
                lemma_first_index(after, has_id(x));
            }
        }
    } else {
        let n = before.len() as int;
        assert(after == before.push(EntryView { principal_id: id, session_type: t, online: false }));
        assert forall|k: int| 0 <= k < entries.len() implies (#[trigger] after[k]).principal_id
            == entries[k].principal_id && after[k].online == entries[k].online
            && after[k].session_type == type_after(registrations, entries[k]) by {
            assert(after[k] == before[k]);
            assert(!has_id(id)(before[k]));
        }
        assert forall|k: int| entries.len() <= k < after.len() implies !(
        #[trigger] after[k]).online && last_type(registrations, after[k].principal_id) == Some(
            after[k].session_type,
        ) && first_index(entries, has_id(after[k].principal_id)) < 0 by {
            if k < n {
                assert(after[k] == before[k]);
                assert(!has_id(id)(before[k]));
            } else {
                lemma_first_index(entries, has_id(id));
                if first_index(entries, has_id(id)) >= 0 {
                    let j = first_index(entries, has_id(id));
                    assert(before[j].principal_id == entries[j].principal_id);
                    assert(has_id(id)(before[j]));
                }
            }
        }
        assert forall|x: Seq<char>| #[trigger] last_type(registrations, x) is Some implies first_index(
            after,
            has_id(x),
        ) >= 0 by {
            if x == id {
                assert(has_id(x)(after[n]));
                lemma_first_index(after, has_id(x));
            } else {
                lemma_first_index(before, has_id(x));
                let j = first_index(before, has_id(x));
                assert(after[j] == before[j]);
                assert(has_id(x)(after[j]));
                lemma_first_index(after, has_id(x));
            }
        }
    }
}

/// Registering the same principals twice is registering them once: a second
/// pass over a registry with distinct ids adds nothing, keeps every
/// connection state, and leaves every type as the first pass set it. So
/// registering a bundle's members again changes nothing.
pub proof fn lemma_register_all_is_idempotent(
    entries: Seq<EntryView>,
    registrations: Seq<(Seq<char>, SessionType)>,
)
    requires
        ids_distinct(entries),
    ensures
        spec_register_all(spec_register_all(entries, registrations), registrations)
            == spec_register_all(entries, registrations),
{
    let once = spec_register_all(entries, registrations);
    lemma_register_all_shape(entries, registrations);
    lemma_register_all_shape(once, registrations);
    let twice = spec_register_all(once, registrations);
    if twice.len() > once.len() {
        let k = once.len() as int;
        assert(last_type(registrations, twice[k].principal_id) is Some);
        assert(first_index(once, has_id(twice[k].principal_id)) >= 0);
    }
    assert forall|k: int| 0 <= k < once.len() implies #[trigger] twice[k] == once[k] by {
        if k >= entries.len() {
            assert(last_type(registrations, once[k].principal_id) == Some(once[k].session_type));
        }
    }
    assert(twice =~= once);
}

/// Registering a bundle's configured members twice leaves the registry as
/// registering them once did.
pub proof fn lemma_bundle_registration_is_idempotent(
    entries: Seq<EntryView>,
    bundle_name: Seq<char>,
    members: Seq<MemberView>,
)
    requires
        ids_distinct(entries),
    ensures
        ({
            let once = spec_register_all(entries, bundle_registrations(bundle_name, members));
            spec_register_all(once, bundle_registrations(bundle_name, members)) == once
        }),
{
    lemma_register_all_is_idempotent(entries, bundle_registrations(bundle_name, members));
}

/// Registering a well-formed bundle lists every configured member under the
/// bundle's namespace: the ids registered in that namespace afterward include
/// each member's canonical `member@bundle` id, whatever was registered before.
pub proof fn lemma_bundle_members_listed(entries: Seq<EntryView>, bundle: BundleConfiguration, k: int)
    requires
        bundle.well_formed(),
        0 <= k < bundle.members@.len(),
    ensures
        spec_register_all(
            entries,
            bundle_registrations(bundle.bundle_name@, bundle.members_view()),
        ).filter(in_namespace(bundle.bundle_name@)).map_values(|e: EntryView| e.principal_id).contains(
            spec_canonical(bundle.members@[k].id@, bundle.bundle_name@),
        ),
{
    let bundle_name = bundle.bundle_name@;
    let members = bundle.members_view();
    assert(members[k] == bundle.members@[k]@);
    assert(bundle.members@[k].id@.len() > 0);
    let regs = bundle_registrations(bundle_name, members);
    let after = spec_register_all(entries, regs);
    let id = spec_canonical(members[k].id, bundle_name);
    lemma_registered_after_register_all(entries, regs);
    assert(regs[k].0 == id);
    let j = first_index(after, has_id(id));
    lemma_first_index(after, has_id(id));
    assert(after[j].principal_id == id);
    lemma_split_canonical(members[k].id, bundle_name);
    assert(in_namespace(bundle_name)(after[j]));
    after.lemma_filter_contains(in_namespace(bundle_name), j);
    let f = after.filter(in_namespace(bundle_name));
    assert(f.contains(after[j]));
    let idx = choose|i: int| 0 <= i < f.len() && f[i] == after[j];
    assert(f.map_values(|e: EntryView| e.principal_id)[idx] == id);
}

/// After registering a sequence of principals every one of them is known, and
/// every principal known before stays known.
pub proof fn lemma_registered_after_register_all(
    entries: Seq<EntryView>,
    registrations: Seq<(Seq<char>, SessionType)>,
)
    ensures
        forall|k: int|
            0 <= k < registrations.len() ==> first_index(
                spec_register_all(entries, registrations),
                has_id(#[trigger] registrations[k].0),
            ) >= 0,
        forall|other: Seq<char>|
            first_index(entries, has_id(other)) >= 0 ==> first_index(
                spec_register_all(entries, registrations),
                #[trigger] has_id(other),
            ) >= 0,
    decreases registrations.len(),
{
    if registrations.len() > 0 {
        let rest = registrations.drop_last();
        lemma_registered_after_register_all(entries, rest);
        let before = spec_register_all(entries, rest);
        let last = registrations.last();
        lemma_register_keeps_ids(before, last.0, last.1);
        assert forall|k: int| 0 <= k < registrations.len() implies first_index(
            spec_register_all(entries, registrations),
            has_id(#[trigger] registrations[k].0),
        ) >= 0 by {
            if k < rest.len() {
                assert(registrations[k] == rest[k]);
                assert(first_index(before, has_id(rest[k].0)) >= 0);
            }
        }
    }
}

} // verus!
