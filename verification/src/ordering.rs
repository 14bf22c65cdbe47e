//! The order the relay sorts names in: lexicographic by character, which for
//! UTF-8 text is the same order as by bytes. Sorting is stable, and a sorted
//! result holds exactly the names it was given.
use vstd::prelude::*;
use vstd::relations::{sorted_by, total_ordering};
use vstd::string::*;

verus! {

/// `a` sorts no later than `b`.
pub open spec fn lex_le(a: Seq<char>, b: Seq<char>) -> bool
    decreases a.len(),
{
    if a.len() == 0 {
        true
    } else if b.len() == 0 {
        false
    } else if (a[0] as int) < (b[0] as int) {
        true
    } else if a[0] == b[0] {
        lex_le(a.drop_first(), b.drop_first())
    } else {
        false
    }
}

/// The order as a relation.
pub open spec fn text_order() -> spec_fn(Seq<char>, Seq<char>) -> bool {
    |a: Seq<char>, b: Seq<char>| lex_le(a, b)
}

proof fn lemma_lex_reflexive(a: Seq<char>)
    ensures
        lex_le(a, a),
    decreases a.len(),
{
    if a.len() > 0 {
        lemma_lex_reflexive(a.drop_first());
    }
}

proof fn lemma_lex_antisymmetric(a: Seq<char>, b: Seq<char>)
    requires
        lex_le(a, b),
        lex_le(b, a),
    ensures
        a == b,
    decreases a.len(),
{
    if a.len() > 0 && b.len() > 0 {
        if a[0] == b[0] {
            lemma_lex_antisymmetric(a.drop_first(), b.drop_first());
            assert(a =~= seq![a[0]] + a.drop_first());
            assert(b =~= seq![b[0]] + b.drop_first());
        } else {
            assert(a[0] as int != b[0] as int);
        }
    } else {
        assert(a.len() == 0 && b.len() == 0);
        assert(a =~= b);
    }
}

proof fn lemma_lex_transitive(a: Seq<char>, b: Seq<char>, c: Seq<char>)
    requires
        lex_le(a, b),
        lex_le(b, c),
    ensures
        lex_le(a, c),
    decreases a.len(),
{
    if a.len() > 0 && b.len() > 0 && c.len() > 0 {
        if a[0] == b[0] && b[0] == c[0] {
            lemma_lex_transitive(a.drop_first(), b.drop_first(), c.drop_first());
        }
    }
}

proof fn lemma_lex_connected(a: Seq<char>, b: Seq<char>)
    ensures
        lex_le(a, b) || lex_le(b, a),
    decreases a.len(),
{
    if a.len() > 0 && b.len() > 0 && a[0] == b[0] {
        lemma_lex_connected(a.drop_first(), b.drop_first());
    } else if a.len() > 0 && b.len() > 0 {
        assert(a[0] as int != b[0] as int);
    }
}

/// The order is a total order.
pub proof fn lemma_text_order_is_total()
    ensures
        total_ordering(text_order()),
{
    assert forall|a: Seq<char>| #[trigger] text_order()(a, a) by {
        lemma_lex_reflexive(a);
    }
    assert forall|a: Seq<char>, b: Seq<char>|
        #[trigger] text_order()(a, b) && #[trigger] text_order()(b, a) implies a == b by {
        lemma_lex_antisymmetric(a, b);
    }
    assert forall|a: Seq<char>, b: Seq<char>, c: Seq<char>|
        #[trigger] text_order()(a, b) && #[trigger] text_order()(b, c) implies text_order()(
        a,
        c,
    ) by {
        lemma_lex_transitive(a, b, c);
    }
    assert forall|a: Seq<char>, b: Seq<char>|
        #[trigger] text_order()(a, b) || #[trigger] text_order()(b, a) by {
        lemma_lex_connected(a, b);
    }
}

/// Whether `a` sorts no later than `b`.
pub fn text_le(a: &str, b: &str) -> (le: bool)
    ensures
        le == lex_le(a@, b@),
{
    let a_len = a.unicode_len();
    let b_len = b.unicode_len();
    let mut i: usize = 0;
    assert(a@.skip(0) =~= a@);
    assert(b@.skip(0) =~= b@);
    while i < a_len
        invariant
            a_len == a@.len(),
            b_len == b@.len(),
            i <= a_len,
            i <= b_len,
            a@.subrange(0, i as int) == b@.subrange(0, i as int),
            lex_le(a@, b@) == lex_le(a@.skip(i as int), b@.skip(i as int)),
        decreases a_len - i,
    {
        if i == b_len {
            assert(a@.skip(i as int).len() > 0 && b@.skip(i as int).len() == 0);
            return false;
        }
        let x = a.get_char(i);
        let y = b.get_char(i);
        assert(a@.skip(i as int)[0] == x && b@.skip(i as int)[0] == y);
        if (x as u32) < (y as u32) {
            return true;
        }
        if x != y {
            return false;
        }
        assert(a@.skip(i as int).drop_first() =~= a@.skip(i + 1));
        assert(b@.skip(i as int).drop_first() =~= b@.skip(i + 1));
        assert(a@.subrange(0, i + 1) =~= a@.subrange(0, i as int).push(x));
        assert(b@.subrange(0, i + 1) =~= b@.subrange(0, i as int).push(y));
        i = i + 1;
    }
    assert(a@.skip(i as int).len() == 0);
    true
}

/// Something sorted by a name.
pub trait Named {
    spec fn name_view(&self) -> Seq<char>;

    fn name(&self) -> (name: &str)
        ensures
            name@ == self.name_view(),
    ;
}

impl Named for String {
    open spec fn name_view(&self) -> Seq<char> {
        self@
    }

    fn name(&self) -> (name: &str) {
        self.as_str()
    }
}

/// The names of `v`, in order.
pub open spec fn names<T: Named>(v: Seq<T>) -> Seq<Seq<char>> {
    v.map_values(|t: T| t.name_view())
}

/// `v` sorted by name, holding exactly the items given; items with equal
/// names keep their original order.
pub fn sort_by_name<T: Named>(v: Vec<T>) -> (sorted: Vec<T>)
    ensures
        sorted_by(names(sorted@), text_order()),
        sorted@.to_multiset() == v@.to_multiset(),
        names(sorted@) == names(v@).sort_by(text_order()),
{
    broadcast use vstd::seq_lib::to_multiset_insert, vstd::seq_lib::to_multiset_build;

    proof {
        lemma_text_order_is_total();
    }
    let ghost input = v@;
    let mut rest = v;
    let mut out: Vec<T> = Vec::new();
    let total = rest.len();
    let mut n: usize = 0;
    assert(out@ =~= input.subrange(0, 0));
    while rest.len() > 0
        invariant
            total == input.len(),
            rest@.len() + n == total,
            total_ordering(text_order()),
            forall|j: int| 0 <= j < rest@.len() ==> #[trigger] rest@[j] == input[n + j],
            sorted_by(names(out@), text_order()),
            out@.to_multiset() == input.subrange(0, n as int).to_multiset(),
        decreases rest@.len(),
    {
        let x = rest.remove(0);
        assert(x == input[n as int]);
        let ghost before = out@;
        let ghost before_names = names(out@);
        let mut p: usize = 0;
        while p < out.len() && text_le(out[p].name(), x.name())
            invariant
                p <= out@.len(),
                before == out@,
                before_names == names(out@),
                forall|k: int| 0 <= k < p ==> lex_le(#[trigger] before_names[k], x.name_view()),
            decreases out@.len() - p,
        {
            p = p + 1;
        }
        out.insert(p, x);
        proof {
            let after = names(out@);
            assert(out@ =~= before.insert(p as int, x));
            assert(after =~= before_names.insert(p as int, x.name_view()));
            assert forall|i: int, j: int| 0 <= i < j < after.len() implies #[trigger] text_order()(
                after[i],
                after[j],
            ) by {
                if j < p {
                    assert(text_order()(before_names[i], before_names[j]));
                } else if j == p {
                    assert(lex_le(before_names[i], x.name_view()));
                } else if i == p {
                    assert(!lex_le(before_names[p as int], x.name_view()));
                    lemma_lex_connected(before_names[p as int], x.name_view());
                    if j - 1 > p {
                        assert(text_order()(before_names[p as int], before_names[j - 1]));
                        lemma_lex_transitive(
                            x.name_view(),
                            before_names[p as int],
                            before_names[j - 1],
                        );
                    }
                } else if i < p {
                    assert(text_order()(before_names[i], before_names[j - 1]));
                } else {
                    assert(text_order()(before_names[i - 1], before_names[j - 1]));
                }
            }
            assert(input.subrange(0, n + 1) =~= input.subrange(0, n as int).push(x));
            vstd::seq_lib::to_multiset_insert(before, p as int, x);
            vstd::seq_lib::to_multiset_build(input.subrange(0, n as int), x);
        }
        assert forall|j: int| 0 <= j < rest@.len() implies #[trigger] rest@[j] == input[n + 1
            + j] by {}
        n = n + 1;
    }
    proof {
        assert(input.subrange(0, total as int) =~= input);
        lemma_map_values_multiset(out@, input, |t: T| t.name_view());
        assert(names(out@) =~= out@.map_values(|t: T| t.name_view()));
        assert(names(input) =~= input.map_values(|t: T| t.name_view()));
        names(input).lemma_sort_by_ensures(text_order());
        vstd::seq_lib::lemma_sorted_unique(
            names(out@),
            names(input).sort_by(text_order()),
            text_order(),
        );
    }
    out
}

/// Sequences holding the same items hold the same images under `f`.
pub proof fn lemma_map_values_multiset<A, B>(a: Seq<A>, b: Seq<A>, f: spec_fn(A) -> B)
    requires
        a.to_multiset() == b.to_multiset(),
    ensures
        a.map_values(f).to_multiset() == b.map_values(f).to_multiset(),
    decreases a.len(),
{
    broadcast use vstd::seq_lib::group_to_multiset_ensures, vstd::multiset::group_multiset_axioms;

    if a.len() == 0 {
        assert(b.to_multiset().len() == 0);
        assert(b.len() == 0);
        assert(a.map_values(f) =~= b.map_values(f));
    } else {
        let x = a[0];
        assert(b.to_multiset().count(x) > 0);
        assert(b.contains(x));
        let k = choose|k: int| 0 <= k < b.len() && b[k] == x;
        vstd::seq_lib::to_multiset_remove(b, k);
        vstd::seq_lib::to_multiset_remove(a, 0);
        assert(a.remove(0) =~= a.drop_first());
        assert(a.drop_first().to_multiset() =~= a.to_multiset().remove(x));
        lemma_map_values_multiset(a.drop_first(), b.remove(k), f);
        assert(a.drop_first().map_values(f) =~= a.map_values(f).drop_first());
        assert(b.remove(k).map_values(f) =~= b.map_values(f).remove(k));
        vstd::seq_lib::to_multiset_remove(b.map_values(f), k);
        vstd::seq_lib::to_multiset_remove(a.map_values(f), 0);
        assert(a.map_values(f).remove(0) =~= a.map_values(f).drop_first());
        assert(a.map_values(f).to_multiset() =~= a.map_values(f).drop_first().to_multiset().insert(
            a.map_values(f)[0],
        ));
        assert(b.map_values(f).to_multiset() =~= b.map_values(f).remove(k).to_multiset().insert(
            b.map_values(f)[k],
        ));
    }
}

} // verus!
