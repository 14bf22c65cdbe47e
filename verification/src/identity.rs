//! Principal identities: the canonical `session@namespace` form, its parts, the
//! namespace partition a principal belongs to, and scope matching.
use vstd::prelude::*;
use vstd::string::*;

use crate::text::{
    ends_with, find_last, join_with, last_index_of, lacks, lemma_last_index_bounds,
    lemma_last_index_of_append, owned, prefixed, seq_ends_with, str_eq,
};

verus! {

/// `@GLOBAL`, the suffix every relay-wide user identity carries.
pub open spec fn global_suffix() -> Seq<char> {
    seq!['@', 'G', 'L', 'O', 'B', 'A', 'L']
}

pub open spec fn global_namespace() -> Seq<char> {
    seq!['G', 'L', 'O', 'B', 'A', 'L']
}

pub open spec fn external_namespace() -> Seq<char> {
    seq!['E', 'X', 'T', 'E', 'R', 'N', 'A', 'L']
}

pub open spec fn relay_namespace() -> Seq<char> {
    seq!['R', 'E', 'L', 'A', 'Y']
}

/// The canonical identity of `session_id` in `namespace`.
pub open spec fn spec_canonical(session_id: Seq<char>, namespace: Seq<char>) -> Seq<char> {
    if seq_ends_with(session_id, global_suffix()) {
        session_id
    } else {
        session_id.push('@') + namespace
    }
}

/// The bundle-local form of a possibly-canonical identity.
pub open spec fn spec_bare(session_id: Seq<char>, namespace: Seq<char>) -> Seq<char> {
    if seq_ends_with(session_id, global_suffix()) {
        session_id
    } else if seq_ends_with(session_id, seq!['@'] + namespace) {
        session_id.subrange(0, session_id.len() - namespace.len() - 1)
    } else {
        session_id
    }
}

/// `<id>@<namespace>` split at its last `@`, when both sides are non-empty.
pub open spec fn spec_split(principal_id: Seq<char>) -> Option<(Seq<char>, Seq<char>)> {
    let at = last_index_of(principal_id, '@');
    if at < 0 {
        None
    } else {
        let local = principal_id.subrange(0, at);
        let namespace = principal_id.subrange(at + 1, principal_id.len() as int);
        if local.len() == 0 || namespace.len() == 0 {
            None
        } else {
            Some((local, namespace))
        }
    }
}

/// Categorizes a principal by namespace partition.
#[derive(Clone, Copy, Debug, PartialEq, Eq, Structural)]
pub enum PrincipalType {
    Session,
    User,
    Application,
    Relay,
}

pub open spec fn spec_namespace_type(namespace: Seq<char>) -> PrincipalType {
    if namespace == global_namespace() {
        PrincipalType::User
    } else if namespace == external_namespace() {
        PrincipalType::Application
    } else if namespace == relay_namespace() {
        PrincipalType::Relay
    } else {
        PrincipalType::Session
    }
}

pub open spec fn spec_classify(principal_id: Seq<char>) -> Option<PrincipalType> {
    match spec_split(principal_id) {
        None => None,
        Some((_, namespace)) => Some(spec_namespace_type(namespace)),
    }
}

pub open spec fn spec_scope_permits(scope: Option<Seq<char>>, target: Seq<char>) -> bool {
    match scope {
        None => false,
        Some(scope) => scope == target || (spec_split(target) is Some && scope == spec_split(
            target,
        ).unwrap().1),
    }
}

pub open spec fn is_ascii_alpha(c: char) -> bool {
    ('a' <= c && c <= 'z') || ('A' <= c && c <= 'Z')
}

pub open spec fn is_session_char(c: char) -> bool {
    is_ascii_alpha(c) || ('0' <= c && c <= '9') || c == '-' || c == '_'
}

/// The configured session-id grammar: a leading ASCII letter, then ASCII
/// letters, digits, `-` or `_`, at most 31 long.
pub open spec fn spec_valid_session_component(session_id: Seq<char>) -> bool {
    &&& session_id.len() >= 1
    &&& session_id.len() <= 31
    &&& is_ascii_alpha(session_id[0])
    &&& forall|i: int| 1 <= i < session_id.len() ==> is_session_char(session_id[i])
}

impl PrincipalType {
    /// The snake_case wire token for this principal type.
    pub fn as_str(self) -> (token: &'static str)
        ensures
            self == PrincipalType::Session ==> token@ == "session"@,
            self == PrincipalType::User ==> token@ == "user"@,
            self == PrincipalType::Application ==> token@ == "application"@,
            self == PrincipalType::Relay ==> token@ == "relay"@,
    {
        match self {
            PrincipalType::Session => "session",
            PrincipalType::User => "user",
            PrincipalType::Application => "application",
            PrincipalType::Relay => "relay",
        }
    }
}

/// Whether `session_id` carries the relay-wide `@GLOBAL` suffix.
fn is_global_identity(session_id: &str) -> (global: bool)
    ensures
        global == seq_ends_with(session_id@, global_suffix()),
{
    proof {
        reveal_strlit("@GLOBAL");
        assert("@GLOBAL"@ =~= global_suffix());
    }
    ends_with(session_id, "@GLOBAL")
}

/// Returns the canonical `session@namespace` identity for a session id.
/// Global-user identities already carry `@GLOBAL` and are their own canonical
/// form.
pub fn canonical_session_id(session_id: &str, namespace: &str) -> (id: String)
    ensures
        id@ == spec_canonical(session_id@, namespace@),
{
    if is_global_identity(session_id) {
        owned(session_id)
    } else {
        join_with(session_id, '@', namespace)
    }
}

/// Returns the bundle-local session id for a possibly-canonical identity:
/// strips a trailing `@{namespace}`; global-user and already-bare ids are
/// returned unchanged.
pub fn bare_session_id(session_id: &str, namespace: &str) -> (id: String)
    ensures
        id@ == spec_bare(session_id@, namespace@),
{
    if is_global_identity(session_id) {
        return owned(session_id);
    }
    let qualifier = prefixed('@', namespace);
    if ends_with(session_id, qualifier.as_str()) {
        let cut = session_id.unicode_len() - qualifier.as_str().unicode_len();
        owned(session_id.substring_char(0, cut))
    } else {
        owned(session_id)
    }
}

/// Splits a `principal_id` of the form `<id>@<namespace>` at its last `@`.
/// Returns `None` when there is no `@` or either side is empty.
pub fn split_principal_id(principal_id: &str) -> (parts: Option<(&str, &str)>)
    ensures
        parts is None <==> spec_split(principal_id@) is None,
        parts is Some ==> spec_split(principal_id@) == Some(
            (parts.unwrap().0@, parts.unwrap().1@),
        ),
{
    proof {
        lemma_last_index_bounds(principal_id@, '@');
    }
    match find_last(principal_id, '@') {
        None => None,
        Some(at) => {
            let n = principal_id.unicode_len();
            let local = principal_id.substring_char(0, at);
            let namespace = principal_id.substring_char(at + 1, n);
            if local.unicode_len() == 0 || namespace.unicode_len() == 0 {
                None
            } else {
                Some((local, namespace))
            }
        },
    }
}

/// Classifies a namespace: `GLOBAL` is a user, `EXTERNAL` an application,
/// `RELAY` a peer relay; any other namespace is a bundle-scoped session.
fn classify_namespace(namespace: &str) -> (kind: PrincipalType)
    ensures
        kind == spec_namespace_type(namespace@),
{
    proof {
        reveal_strlit("GLOBAL");
        reveal_strlit("EXTERNAL");
        reveal_strlit("RELAY");
        assert("GLOBAL"@ =~= global_namespace());
        assert("EXTERNAL"@ =~= external_namespace());
        assert("RELAY"@ =~= relay_namespace());
    }
    if str_eq(namespace, "GLOBAL") {
        PrincipalType::User
    } else if str_eq(namespace, "EXTERNAL") {
        PrincipalType::Application
    } else if str_eq(namespace, "RELAY") {
        PrincipalType::Relay
    } else {
        PrincipalType::Session
    }
}

/// Classifies a `principal_id` by namespace partition; `None` when it is not
/// in `<id>@<namespace>` form.
pub fn classify_principal_id(principal_id: &str) -> (kind: Option<PrincipalType>)
    ensures
        kind == spec_classify(principal_id@),
{
    match split_principal_id(principal_id) {
        None => None,
        Some((_, namespace)) => Some(classify_namespace(namespace)),
    }
}

/// Whether a registered `scope` permits `target_principal_id`: an exact
/// identity, or a bare namespace covering every principal in it. No scope is
/// fail-closed.
pub fn scope_permits(scope: Option<&str>, target_principal_id: &str) -> (permitted: bool)
    ensures
        permitted == spec_scope_permits(
            match scope {
                None => None,
                Some(s) => Some(s@),
            },
            target_principal_id@,
        ),
{
    match scope {
        None => false,
        Some(scope) => {
            if str_eq(scope, target_principal_id) {
                return true;
            }
            match split_principal_id(target_principal_id) {
                Some((_, namespace)) => str_eq(scope, namespace),
                None => false,
            }
        },
    }
}

fn is_ascii_alphabetic(c: char) -> (alpha: bool)
    ensures
        alpha == is_ascii_alpha(c),
{
    ('a' <= c && c <= 'z') || ('A' <= c && c <= 'Z')
}

/// True when `session_id` matches the configured session-id grammar, which by
/// construction excludes `.`, `..` and path separators.
pub fn is_valid_session_component(session_id: &str) -> (valid: bool)
    ensures
        valid == spec_valid_session_component(session_id@),
{
    let n = session_id.unicode_len();
    if n == 0 {
        return false;
    }
    if !is_ascii_alphabetic(session_id.get_char(0)) {
        return false;
    }
    let mut i: usize = 1;
    while i < n
        invariant
            n == session_id@.len(),
            1 <= i <= n,
            forall|k: int| 1 <= k < i ==> is_session_char(session_id@[k]),
        decreases n - i,
    {
        let c = session_id.get_char(i);
        if !(is_ascii_alphabetic(c) || ('0' <= c && c <= '9') || c == '-' || c == '_') {
            return false;
        }
        i = i + 1;
    }
    n <= 31
}

/// Stripping the namespace qualifier undoes canonicalization, for any session
/// id that is not itself relay-wide and any namespace that is neither `GLOBAL`
/// nor holds an `@`.
pub proof fn lemma_bare_undoes_canonical(session_id: Seq<char>, namespace: Seq<char>)
    requires
        !seq_ends_with(session_id, global_suffix()),
        namespace != global_namespace(),
        lacks(namespace, '@'),
    ensures
        spec_bare(spec_canonical(session_id, namespace), namespace) == session_id,
{
    let c = session_id.push('@') + namespace;
    assert(spec_canonical(session_id, namespace) == c);
    let g = global_suffix();
    if seq_ends_with(c, g) {
        let tail = c.subrange(c.len() - 7, c.len() as int);
        if namespace.len() >= 7 {
            assert(tail[0] == namespace[namespace.len() - 7]);
        } else if namespace.len() == 6 {
            assert(tail =~= seq!['@'] + namespace);
            assert(namespace =~= tail.subrange(1, 7));
            assert(namespace =~= global_namespace());
        } else {
            let k = 6 - namespace.len();
            assert(tail[k] == c[c.len() - 7 + k]);
            assert(c[c.len() - namespace.len() - 1] == '@');
            assert(g[k] != '@');
        }
    }
    assert(c.subrange(c.len() - namespace.len() - 1, c.len() as int) =~= seq!['@'] + namespace);
    assert(c.subrange(0, c.len() - namespace.len() - 1) =~= session_id);
}

/// A canonical identity splits back into the session id and namespace it was
/// built from.
pub proof fn lemma_split_canonical(session_id: Seq<char>, namespace: Seq<char>)
    requires
        !seq_ends_with(session_id, global_suffix()),
        session_id.len() > 0,
        namespace.len() > 0,
        lacks(namespace, '@'),
    ensures
        spec_split(spec_canonical(session_id, namespace)) == Some((session_id, namespace)),
        spec_classify(spec_canonical(session_id, namespace)) == Some(
            spec_namespace_type(namespace),
        ),
{
    let c = session_id.push('@') + namespace;
    lemma_last_index_of_append(session_id, '@', namespace);
    assert(c.subrange(0, session_id.len() as int) =~= session_id);
    assert(c.subrange(session_id.len() as int + 1, c.len() as int) =~= namespace);
}

/// A scope grants what it names and nothing without one: no scope permits
/// nothing, an identity scope permits itself, and a namespace scope permits
/// every well-formed principal in that namespace.
pub proof fn lemma_scope_grants(scope: Seq<char>, target: Seq<char>)
    ensures
        !spec_scope_permits(None, target),
        spec_scope_permits(Some(target), target),
        spec_split(target) is Some ==> spec_scope_permits(Some(spec_split(target).unwrap().1), target),
{
}

} // verus!
