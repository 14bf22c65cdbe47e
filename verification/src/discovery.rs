//! Relay-wide discovery: the peer aliases this relay routes to, and the
//! namespaces a requester can see.
//!
//! Listing relays names only aliases, sorted and each once. Local namespace
//! discovery shows `GLOBAL` and, to a requester whose `list` reaches every
//! namespace, every catalog bundle, else its own home namespace. A peer relay
//! asking through this relay may not forward discovery further, and a peer
//! whose ingress scope does not cover what it asks for is denied without
//! learning whether it exists.
use vstd::prelude::*;
use vstd::string::*;

use crate::errors::{error_view, one_detail, relay_error, text_detail, text_field, two_details, RelayError, RelayErrorView};
use crate::identity::{classify_principal_id, spec_classify, spec_split, split_principal_id, PrincipalType};
use crate::listing::{ListedBundle, ListedBundleState};
use crate::ordering::{lemma_text_order_is_total, lex_le, names, sort_by_name, text_order};

verus! {

/// Names sorted strictly: each sorts before the next, none twice.
pub open spec fn strictly_sorted(s: Seq<Seq<char>>) -> bool {
    forall|a: int, b: int| 0 <= a < b < s.len() ==> lex_le(s[a], s[b]) && s[a] != s[b]
}

/// `names` sorted, each name once.
pub fn sorted_distinct(input: Vec<String>) -> (out: Vec<String>)
    ensures
        strictly_sorted(names(out@)),
        forall|x: Seq<char>| names(out@).contains(x) <==> names(input@).contains(x),
{
    broadcast use vstd::seq_lib::group_to_multiset_ensures;

    proof {
        lemma_text_order_is_total();
        names(input@).lemma_sort_by_ensures(text_order());
    }
    let sorted = sort_by_name(input);
    let ghost sv = names(sorted@);
    assert(sv.to_multiset() == names(input@).to_multiset());
    let mut out: Vec<String> = Vec::new();
    let mut i: usize = 0;
    while i < sorted.len()
        invariant
            i <= sorted@.len(),
            sv == names(sorted@),
            vstd::relations::sorted_by(sv, text_order()),
            vstd::relations::total_ordering(text_order()),
            strictly_sorted(names(out@)),
            i > 0 ==> names(out@).len() > 0 && names(out@).last() == sv[i - 1],
            i == 0 ==> out@.len() == 0,
            forall|x: Seq<char>| names(out@).contains(x) <==> sv.take(i as int).contains(x),
        decreases sorted@.len() - i,
    {
        let ghost before = names(out@);
        let fresh = if out.len() == 0 {
            true
        } else {
            let last = out.len() - 1;
            !crate::text::str_eq(out[last].as_str(), sorted[i].as_str())
        };
        assert(sv[i as int] == sorted@[i as int]@);
        if fresh {
            out.push(sorted[i].clone());
            proof {
                assert(names(out@) =~= before.push(sv[i as int]));
                if i > 0 {
                    assert(text_order()(sv[i - 1], sv[i as int]));
                    assert forall|a: int, b: int|
                        0 <= a < b < names(out@).len() implies lex_le(
                        names(out@)[a],
                        names(out@)[b],
                    ) && names(out@)[a] != names(out@)[b] by {
                        if b == before.len() {
                            let last = before.len() - 1;
                            if a < last {
                                assert(lex_le(before[a], before[last]));
                                assert(text_order()(before[a], before[last]));
                                assert(text_order()(before[a], sv[i as int]));
                                if before[a] == sv[i as int] {
                                    assert(text_order()(sv[i as int], before[last]));
                                }
                            }
                        } else {
                            assert(names(out@)[a] == before[a]);
                            assert(names(out@)[b] == before[b]);
                        }
                    }
                }
            }
        } else {
            proof {
                assert(before.last() == sv[i as int]);
            }
        }
        proof {
            assert(sv.take(i + 1) =~= sv.take(i as int).push(sv[i as int]));
            assert forall|x: Seq<char>| names(out@).contains(x) <==> sv.take(i + 1).contains(x) by {
                let now = names(out@);
                let prefix = sv.take(i as int);
                let longer = sv.take(i + 1);
                if now.contains(x) {
                    let k = choose|k: int| 0 <= k < now.len() && now[k] == x;
                    if k < before.len() {
                        assert(before[k] == x);
                        assert(before.contains(x));
                        assert(prefix.contains(x));
                        let j = choose|j: int| 0 <= j < prefix.len() && prefix[j] == x;
                        assert(longer[j] == x);
                    } else {
                        assert(longer[i as int] == x);
                    }
                }
                if longer.contains(x) {
                    let j = choose|j: int| 0 <= j < longer.len() && longer[j] == x;
                    if j < i {
                        assert(prefix[j] == x);
                        assert(prefix.contains(x));
                        assert(before.contains(x));
                        let k = choose|k: int| 0 <= k < before.len() && before[k] == x;
                        assert(now[k] == x);
                    } else {
                        assert(x == sv[i as int]);
                        if fresh {
                            assert(now[now.len() - 1] == x);
                        } else {
                            assert(now[now.len() - 1] == x);
                        }
                    }
                }
            }
        }
        i = i + 1;
    }
    proof {
        assert(sv.take(sv.len() as int) =~= sv);
        assert forall|x: Seq<char>| names(out@).contains(x) <==> names(input@).contains(x) by {
            assert(sv.contains(x) <==> sv.to_multiset().count(x) > 0);
            assert(names(input@).contains(x) <==> names(input@).to_multiset().count(x) > 0);
        }
    }
    out
}

/// Lists this relay's configured peer aliases, sorted, each once, for a
/// requester whose `list` reaches every namespace (`authorized`); nothing but
/// the alias is disclosed.
pub fn list_relays(configured_aliases: Vec<String>, authorized: Result<(), RelayError>) -> (relays:
    Result<Vec<String>, RelayError>)
    ensures
        authorized is Err ==> relays is Err && relays->Err_0@ == authorized->Err_0@,
        authorized is Ok ==> relays is Ok && strictly_sorted(names(relays->Ok_0@)) && forall|
            x: Seq<char>,
        | names(relays->Ok_0@).contains(x) <==> names(configured_aliases@).contains(x),
{
    match authorized {
        Err(e) => Err(e),
        Ok(()) => Ok(sorted_distinct(configured_aliases)),
    }
}

/// The namespaces a local discovery shows: `GLOBAL`, and every catalog
/// bundle to a requester whose `list` reaches every namespace, else the
/// requester's own home namespace.
pub open spec fn visible_namespace(
    requester: Seq<char>,
    reaches_all: bool,
    catalog: Seq<Seq<char>>,
    namespace: Seq<char>,
) -> bool {
    ||| namespace == "GLOBAL"@
    ||| reaches_all && catalog.contains(namespace)
    ||| !reaches_all && spec_split(requester) is Some && namespace == spec_split(requester).unwrap().1
}

/// The namespaces a local discovery shows `requester`, sorted, each once.
pub fn local_namespaces(requester: &str, reaches_all: bool, catalog_bundles: Vec<String>) -> (namespaces:
    Vec<String>)
    ensures
        strictly_sorted(names(namespaces@)),
        forall|x: Seq<char>|
            names(namespaces@).contains(x) <==> visible_namespace(
                requester@,
                reaches_all,
                names(catalog_bundles@),
                x,
            ),
{
    let ghost catalog = names(catalog_bundles@);
    let mut all: Vec<String> = Vec::new();
    all.push(String::from_str("GLOBAL"));
    if reaches_all {
        let mut i: usize = 0;
        while i < catalog_bundles.len()
            invariant
                i <= catalog_bundles@.len(),
                catalog == names(catalog_bundles@),
                names(all@) == seq!["GLOBAL"@] + catalog.take(i as int),
            decreases catalog_bundles@.len() - i,
        {
            let ghost before = names(all@);
            all.push(catalog_bundles[i].clone());
            assert(catalog.take(i + 1) =~= catalog.take(i as int).push(catalog[i as int]));
            assert(names(all@) =~= before.push(catalog[i as int]));
            i = i + 1;
        }
        assert(catalog.take(catalog.len() as int) =~= catalog);
    } else {
        match split_principal_id(requester) {
            Some((_, home)) => all.push(String::from_str(home)),
            None => {},
        }
    }
    let ghost gathered = names(all@);
    let namespaces = sorted_distinct(all);
    proof {
        assert forall|x: Seq<char>|
            names(namespaces@).contains(x) <==> visible_namespace(
                requester@,
                reaches_all,
                catalog,
                x,
            ) by {
            if x == "GLOBAL"@ {
                assert(gathered[0] == x);
            }
            if reaches_all {
                if catalog.contains(x) {
                    let k = choose|k: int| 0 <= k < catalog.len() && catalog[k] == x;
                    assert(gathered[k + 1] == x);
                }
                if gathered.contains(x) && x != "GLOBAL"@ {
                    let k = choose|k: int| 0 <= k < gathered.len() && gathered[k] == x;
                    assert(k > 0);
                    assert(catalog[k - 1] == x);
                }
            } else {
                if spec_split(requester@) is Some {
                    assert(gathered.len() == 2);
                    if x == spec_split(requester@).unwrap().1 {
                        assert(gathered[1] == x);
                    }
                } else {
                    assert(gathered.len() == 1);
                }
            }
        }
    }
    namespaces
}

/// Whether a requester is a peer relay (`<id>@RELAY`).
pub fn is_relay_principal(session_id: &str) -> (relay: bool)
    ensures
        relay == (spec_classify(session_id@) == Some(PrincipalType::Relay)),
{
    match classify_principal_id(session_id) {
        Some(PrincipalType::Relay) => true,
        _ => false,
    }
}

/// The refusal of a peer relay that asks this relay to forward discovery
/// onward.
pub open spec fn spec_reforward_refused() -> RelayErrorView {
    error_view(
        "authorization_forbidden"@,
        "a peer relay ingress requester may not forward cross-relay discovery"@,
        Some(
            seq![
                text_detail("capability"@, "ingress"@),
                text_detail(
                    "reason"@,
                    "cross-relay chaining is not permitted for a peer relay ingress requester"@,
                ),
            ],
        ),
    )
}

/// Refuses a peer relay (`ingress`) asking to forward discovery onward: a
/// forwarded request always arrives with its relay selector cleared.
pub fn reject_peer_reforward(ingress: bool) -> (checked: Result<(), RelayError>)
    ensures
        ingress ==> checked is Err && checked->Err_0@ == spec_reforward_refused(),
        !ingress ==> checked is Ok,
{
    if ingress {
        return Err(
            relay_error(
                "authorization_forbidden",
                "a peer relay ingress requester may not forward cross-relay discovery",
                two_details(
                    text_field("capability", "ingress"),
                    text_field(
                        "reason",
                        "cross-relay chaining is not permitted for a peer relay ingress requester",
                    ),
                ),
            ),
        );
    }
    Ok(())
}

/// The uniform denial of discovery outside a peer's ingress scope; it names
/// nothing, so it discloses no namespace's existence.
pub fn ingress_forbidden() -> (error: RelayError)
    ensures
        error@ == error_view(
            "authorization_forbidden"@,
            "cross-relay discovery denied by peer relay ingress scope"@,
            Some(seq![text_detail("capability"@, "ingress"@)]),
        ),
{
    relay_error(
        "authorization_forbidden",
        "cross-relay discovery denied by peer relay ingress scope",
        one_detail(text_field("capability", "ingress")),
    )
}

/// The listing of a covered namespace this relay does not host: down,
/// unhosted, with no principals.
pub fn empty_namespace_bundle(namespace: &str) -> (bundle: ListedBundle)
    ensures
        bundle.id@ == namespace@,
        !bundle.hosted,
        bundle.state == ListedBundleState::Down,
        bundle.startup_health is None,
        bundle.state_reason_code is None,
        bundle.state_reason is None,
        bundle.startup_failure_count == 0,
        bundle.recent_startup_failures@.len() == 0,
        bundle.principals@.len() == 0,
{
    ListedBundle {
        id: String::from_str(namespace),
        hosted: false,
        state: ListedBundleState::Down,
        startup_health: None,
        state_reason_code: None,
        state_reason: None,
        startup_failure_count: 0,
        recent_startup_failures: Vec::new(),
        principals: Vec::new(),
    }
}

/// The listing of a covered namespace this relay does not host: down,
/// unhosted, with no principals and no startup history.
pub open spec fn empty_listing(bundle: ListedBundle, namespace: Seq<char>) -> bool {
    &&& bundle.id@ == namespace
    &&& !bundle.hosted
    &&& bundle.state == ListedBundleState::Down
    &&& bundle.startup_health is None
    &&& bundle.state_reason_code is None
    &&& bundle.state_reason is None
    &&& bundle.startup_failure_count == 0
    &&& bundle.recent_startup_failures@.len() == 0
    &&& bundle.principals@.len() == 0
}

/// The ingress answer to a peer's principal discovery in one namespace, from
/// the listing collected beforehand (`None` when this relay does not host the
/// namespace) and the peer's current ingress `scope`. `covered` is whether that
/// scope covers the namespace. A peer without a scope, or whose scope does not
/// cover the namespace, gets the uniform denial whether or not the namespace
/// exists; a covered namespace gets its collected listing, or an empty one when
/// this relay does not host it.
pub fn decide_principal_snapshot(
    snapshot: Option<ListedBundle>,
    scope: Option<&str>,
    covered: bool,
    namespace: &str,
) -> (answer: Result<ListedBundle, RelayError>)
    ensures
        (scope is None || !covered) ==> answer is Err && answer->Err_0@ == error_view(
            "authorization_forbidden"@,
            "cross-relay discovery denied by peer relay ingress scope"@,
            Some(seq![text_detail("capability"@, "ingress"@)]),
        ),
        scope is Some && covered && snapshot is Some ==> answer == Ok::<ListedBundle, RelayError>(
            snapshot.unwrap(),
        ),
        scope is Some && covered && snapshot is None ==> answer is Ok && empty_listing(
            answer->Ok_0,
            namespace@,
        ),
{
    if scope.is_none() || !covered {
        return Err(ingress_forbidden());
    }
    match snapshot {
        Some(bundle) => Ok(bundle),
        None => Ok(empty_namespace_bundle(namespace)),
    }
}

} // verus!
