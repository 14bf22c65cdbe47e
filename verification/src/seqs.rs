//! Facts about sequences the relay's tables are specified with: the first
//! position satisfying a predicate, and filtering one element at a time.
use vstd::prelude::*;

verus! {

/// The first position of `s` satisfying `p`, or `-1`.
pub open spec fn first_index<A>(s: Seq<A>, p: spec_fn(A) -> bool) -> int
    decreases s.len(),
{
    if s.len() == 0 {
        -1
    } else if p(s[0]) {
        0
    } else {
        let rest = first_index(s.drop_first(), p);
        if rest < 0 {
            -1
        } else {
            rest + 1
        }
    }
}

/// `first_index` is a position satisfying `p` with none before it, or `-1`
/// when no position does.
pub proof fn lemma_first_index<A>(s: Seq<A>, p: spec_fn(A) -> bool)
    ensures
        -1 <= first_index(s, p) < s.len(),
        first_index(s, p) >= 0 ==> p(s[first_index(s, p)]),
        forall|j: int|
            0 <= j < s.len() && (first_index(s, p) < 0 || j < first_index(s, p)) ==> !p(
                #[trigger] s[j],
            ),
    decreases s.len(),
{
    if s.len() > 0 && !p(s[0]) {
        lemma_first_index(s.drop_first(), p);
        assert forall|j: int|
            0 <= j < s.len() && (first_index(s, p) < 0 || j < first_index(s, p)) implies !p(
            #[trigger] s[j],
        ) by {
            if j > 0 {
                assert(s[j] == s.drop_first()[j - 1]);
            }
        }
    }
}

/// A position satisfying `p` with none before it is `first_index`.
pub proof fn lemma_first_index_is<A>(s: Seq<A>, p: spec_fn(A) -> bool, i: int)
    requires
        0 <= i < s.len(),
        p(s[i]),
        forall|j: int| 0 <= j < i ==> !p(#[trigger] s[j]),
    ensures
        first_index(s, p) == i,
{
    lemma_first_index(s, p);
}

/// Filtering a prefix one element longer adds that element exactly when it
/// satisfies the predicate.
pub proof fn lemma_filter_step<A>(s: Seq<A>, p: spec_fn(A) -> bool, i: int)
    requires
        0 <= i < s.len(),
    ensures
        s.subrange(0, i + 1).filter(p) == (if p(s[i]) {
            s.subrange(0, i).filter(p).push(s[i])
        } else {
            s.subrange(0, i).filter(p)
        }),
{
    reveal(Seq::filter);
    assert(s.subrange(0, i + 1).drop_last() =~= s.subrange(0, i));
}

/// Replacing the first element satisfying `p` by another that satisfies it
/// keeps it first.
pub proof fn lemma_first_index_update<A>(s: Seq<A>, p: spec_fn(A) -> bool, x: A)
    requires
        first_index(s, p) >= 0,
        p(x),
    ensures
        first_index(s.update(first_index(s, p), x), p) == first_index(s, p),
{
    lemma_first_index(s, p);
    let i = first_index(s, p);
    let t = s.update(i, x);
    assert forall|j: int| 0 <= j < i implies !p(#[trigger] t[j]) by {
        assert(t[j] == s[j]);
    }
    lemma_first_index_is(t, p, i);
}

} // verus!
