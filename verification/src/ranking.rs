//! Deterministic ranking of candidate parts.
//!
//! Candidates are ordered best-first: parts the supplier stocks as standard
//! ("basic") items come before others, higher stock comes before lower, and
//! the catalog id breaks all remaining ties, so the order is total and the
//! ranking of a candidate list is a single well-defined sequence. Ranking
//! the same candidates always yields that sequence.

use vstd::prelude::*;
use vstd::seq_lib::lemma_multiset_commutative;
use crate::catalog::Component;

verus! {

/// The ranking order, ascending from best to worst: `a` ranks at or before
/// `b` when `a` is basic and `b` is not, or both tie on the basic flag and
/// `a` has more stock, or both tie there too and `a`'s id is no larger.
pub open spec fn rank_le(a: Component, b: Component) -> bool {
    if a.basic != b.basic {
        a.basic
    } else if a.stock != b.stock {
        a.stock > b.stock
    } else {
        a.id <= b.id
    }
}

/// The ranking order is total and transitive, and two parts that rank at or
/// before each other agree on every field the order inspects: the order is
/// a total order up to the (basic, stock, id) key, with the id alone
/// deciding every tie.
pub proof fn lemma_rank_total_order(a: Component, b: Component, c: Component)
    ensures
        rank_le(a, b) || rank_le(b, a),
        rank_le(a, b) && rank_le(b, c) ==> rank_le(a, c),
        rank_le(a, b) && rank_le(b, a) ==> a.basic == b.basic && a.stock == b.stock && a.id
            == b.id,
{
}

pub fn rank_before(a: &Component, b: &Component) -> (r: bool)
    ensures
        r == rank_le(*a, *b),
{
    if a.basic != b.basic {
        a.basic
    } else if a.stock != b.stock {
        a.stock > b.stock
    } else {
        a.id <= b.id
    }
}

/// A sequence ordered best-first by the ranking order.
pub open spec fn is_ranked(s: Seq<Component>) -> bool {
    forall|i: int, j: int| 0 <= i < j < s.len() ==> rank_le(s[i], s[j])
}

/// A candidate placed at its rank position: before the first element it
/// ranks at or before, after everything it ranks strictly after.
pub open spec fn spec_insert_ranked(s: Seq<Component>, c: Component) -> Seq<Component>
    decreases s.len(),
{
    if s.len() == 0 {
        seq![c]
    } else if rank_le(c, s[0]) {
        seq![c] + s
    } else {
        seq![s[0]] + spec_insert_ranked(s.drop_first(), c)
    }
}

/// The ranking of a candidate list: each candidate in turn placed at its
/// rank position. A function of the list alone, so ranking is
/// deterministic: the same candidates always rank the same way.
pub open spec fn spec_rank(s: Seq<Component>) -> Seq<Component>
    decreases s.len(),
{
    if s.len() == 0 {
        Seq::empty()
    } else {
        spec_insert_ranked(spec_rank(s.drop_last()), s.last())
    }
}

/// Placing one candidate adds exactly that candidate to the collection.
proof fn lemma_insert_ranked_multiset(s: Seq<Component>, c: Component)
    ensures
        spec_insert_ranked(s, c).to_multiset() =~= s.to_multiset().insert(c),
        spec_insert_ranked(s, c).len() == s.len() + 1,
    decreases s.len(),
{
    broadcast use vstd::multiset::group_multiset_axioms;

    s.to_multiset_ensures();
    if s.len() == 0 {
        assert(seq![c] =~= Seq::<Component>::empty().push(c));
        Seq::<Component>::empty().to_multiset_ensures();
    } else if rank_le(c, s[0]) {
        lemma_multiset_commutative(seq![c], s);
        assert(seq![c] =~= Seq::<Component>::empty().push(c));
        Seq::<Component>::empty().to_multiset_ensures();
    } else {
        lemma_insert_ranked_multiset(s.drop_first(), c);
        lemma_multiset_commutative(seq![s[0]], spec_insert_ranked(s.drop_first(), c));
        assert(seq![s[0]] =~= Seq::<Component>::empty().push(s[0]));
        Seq::<Component>::empty().to_multiset_ensures();
        s.drop_first().to_multiset_ensures();
        assert(s =~= seq![s[0]] + s.drop_first());
        lemma_multiset_commutative(seq![s[0]], s.drop_first());
    }
}

/// Whatever sits in the placed sequence was there before or is the new
/// candidate.
proof fn lemma_insert_ranked_members(s: Seq<Component>, c: Component, j: int)
    requires
        0 <= j < spec_insert_ranked(s, c).len(),
    ensures
        spec_insert_ranked(s, c)[j] == c || s.contains(spec_insert_ranked(s, c)[j]),
{
    broadcast use vstd::multiset::group_multiset_axioms;

    let r = spec_insert_ranked(s, c);
    lemma_insert_ranked_multiset(s, c);
    r.to_multiset_ensures();
    s.to_multiset_ensures();
    assert(r.contains(r[j]));
    assert(r.to_multiset().count(r[j]) > 0);
    if r[j] != c {
        assert(s.to_multiset().count(r[j]) > 0);
    }
}

/// Placing a candidate into a ranked sequence keeps it ranked.
proof fn lemma_insert_ranked_sorted(s: Seq<Component>, c: Component)
    requires
        is_ranked(s),
    ensures
        is_ranked(spec_insert_ranked(s, c)),
    decreases s.len(),
{
    let r = spec_insert_ranked(s, c);
    if s.len() == 0 {
    } else if rank_le(c, s[0]) {
        assert forall|i: int, j: int| 0 <= i < j < r.len() implies rank_le(r[i], r[j]) by {
            if i == 0 {
                assert(r[j] == s[j - 1]);
                lemma_rank_total_order(c, s[0], s[j - 1]);
            } else {
                assert(r[i] == s[i - 1] && r[j] == s[j - 1]);
            }
        }
    } else {
        lemma_rank_total_order(s[0], c, c);
        let rest = s.drop_first();
        assert(is_ranked(rest)) by {
            assert(forall|i: int, j: int|
                0 <= i < j < rest.len() ==> rank_le(#[trigger] rest[i], #[trigger] rest[j]));
        }
        lemma_insert_ranked_sorted(rest, c);
        let inner = spec_insert_ranked(rest, c);
        assert forall|i: int, j: int| 0 <= i < j < r.len() implies rank_le(r[i], r[j]) by {
            if i == 0 {
                assert(r[j] == inner[j - 1]);
                lemma_insert_ranked_members(rest, c, j - 1);
                if inner[j - 1] == c {
                    assert(rank_le(s[0], c));
                } else {
                    let k = choose|k: int| 0 <= k < rest.len() && rest[k] == inner[j - 1];
                    assert(s[k + 1] == rest[k]);
                }
            } else {
                assert(r[i] == inner[i - 1] && r[j] == inner[j - 1]);
            }
        }
    }
}

/// The ranking of a list is ranked and holds exactly the candidates of the
/// list: it is a best-first reordering, nothing added, nothing dropped.
pub proof fn lemma_rank_ensures(s: Seq<Component>)
    ensures
        is_ranked(spec_rank(s)),
        spec_rank(s).to_multiset() =~= s.to_multiset(),
        spec_rank(s).len() == s.len(),
    decreases s.len(),
{
    broadcast use vstd::multiset::group_multiset_axioms;

    s.to_multiset_ensures();
    if s.len() == 0 {
        assert(s =~= Seq::<Component>::empty());
    } else {
        let prefix = s.drop_last();
        lemma_rank_ensures(prefix);
        lemma_insert_ranked_sorted(spec_rank(prefix), s.last());
        lemma_insert_ranked_multiset(spec_rank(prefix), s.last());
        prefix.to_multiset_ensures();
        assert(s =~= prefix.push(s.last()));
        assert(spec_rank(s) == spec_insert_ranked(spec_rank(prefix), s.last()));
        assert(spec_rank(s).to_multiset() =~= spec_rank(prefix).to_multiset().insert(s.last()));
        assert(prefix.push(s.last()).to_multiset() =~= prefix.to_multiset().insert(s.last()));
        assert(s.to_multiset() == prefix.push(s.last()).to_multiset());
    }
}

/// Every ranked candidate comes from the list that was ranked.
pub proof fn lemma_rank_members(s: Seq<Component>, j: int)
    requires
        0 <= j < spec_rank(s).len(),
    ensures
        s.contains(spec_rank(s)[j]),
{
    broadcast use vstd::multiset::group_multiset_axioms;

    lemma_rank_ensures(s);
    let r = spec_rank(s);
    let x = r[j];
    r.to_multiset_ensures();
    s.to_multiset_ensures();
    assert(r.contains(x)) by {
        assert(0 <= j < r.len() && r[j] == x);
    }
    assert(r.to_multiset().count(x) > 0);
    assert(s.to_multiset().count(x) > 0);
}

/// No two candidates share a catalog id.
pub open spec fn distinct_ids(s: Seq<Component>) -> bool {
    forall|i: int, j: int| 0 <= i < j < s.len() ==> s[i].id != s[j].id
}

/// Ranking determinism: a candidate list whose catalog ids are pairwise
/// distinct has exactly one best-first ordering. Any two ranked
/// rearrangements of the same candidates are equal, element for element:
/// the id tie-break makes the ranking order total.
pub proof fn lemma_ranked_permutation_unique(a: Seq<Component>, b: Seq<Component>)
    requires
        is_ranked(a),
        is_ranked(b),
        a.to_multiset() == b.to_multiset(),
        distinct_ids(a),
    ensures
        a == b,
    decreases a.len(),
{
    broadcast use vstd::multiset::group_multiset_axioms;

    a.to_multiset_ensures();
    b.to_multiset_ensures();
    assert(a.len() == b.len());
    if a.len() == 0 {
        assert(a =~= b);
    } else {
        assert(a.contains(a[0])) by {
            assert(a[0] == a[0]);
        }
        assert(b.to_multiset().count(a[0]) > 0);
        assert(b.contains(a[0]));
        let k = choose|k: int| 0 <= k < b.len() && b[k] == a[0];
        assert(b.contains(b[0])) by {
            assert(b[0] == b[0]);
        }
        assert(a.to_multiset().count(b[0]) > 0);
        assert(a.contains(b[0]));
        let k2 = choose|k2: int| 0 <= k2 < a.len() && a[k2] == b[0];
        assert(rank_le(a[0], b[0])) by {
            if k2 == 0 {
                lemma_rank_total_order(a[0], b[0], b[0]);
            } else {
                assert(rank_le(a[0], a[k2]));
            }
        }
        assert(rank_le(b[0], a[0])) by {
            if k == 0 {
                lemma_rank_total_order(b[0], a[0], a[0]);
            } else {
                assert(rank_le(b[0], b[k]));
            }
        }
        lemma_rank_total_order(a[0], b[0], a[0]);
        assert(a[0].id == b[0].id);
        if k != 0 && b[k] != b[0] {
            // Two distinct values of b would share one id; both sit in a,
            // whose ids are pairwise distinct.
            assert(a[k2] == b[0] && a[0] == b[k]);
            assert(k2 != 0);
            assert(a[0].id != a[k2].id);
            assert(false);
        }
        assert(b[0] == a[0]);
        let ta = a.drop_first();
        let tb = b.drop_first();
        assert(a.remove(0) =~= ta);
        assert(b.remove(0) =~= tb);
        assert(ta.to_multiset() =~= a.to_multiset().remove(a[0]));
        assert(tb.to_multiset() =~= b.to_multiset().remove(b[0]));
        assert(is_ranked(ta)) by {
            assert forall|i: int, j: int| 0 <= i < j < ta.len() implies rank_le(ta[i], ta[j]) by {
                assert(ta[i] == a[i + 1] && ta[j] == a[j + 1]);
            }
        }
        assert(is_ranked(tb)) by {
            assert forall|i: int, j: int| 0 <= i < j < tb.len() implies rank_le(tb[i], tb[j]) by {
                assert(tb[i] == b[i + 1] && tb[j] == b[j + 1]);
            }
        }
        assert(distinct_ids(ta)) by {
            assert forall|i: int, j: int| 0 <= i < j < ta.len() implies ta[i].id != ta[j].id by {
                assert(ta[i] == a[i + 1] && ta[j] == a[j + 1]);
            }
        }
        lemma_ranked_permutation_unique(ta, tb);
        assert(a =~= b) by {
            assert(forall|i: int| 0 < i < a.len() ==> #[trigger] a[i] == ta[i - 1]);
            assert(forall|i: int| 0 < i < b.len() ==> #[trigger] b[i] == tb[i - 1]);
        }
    }
}

/// Where a candidate lands: at the first index whose occupant it ranks at
/// or before.
proof fn lemma_insert_ranked_at(s: Seq<Component>, c: Component, j: int)
    requires
        0 <= j <= s.len(),
        forall|k: int| 0 <= k < j ==> !rank_le(c, #[trigger] s[k]),
        j < s.len() ==> rank_le(c, s[j]),
    ensures
        spec_insert_ranked(s, c) == s.insert(j, c),
    decreases s.len(),
{
    if s.len() == 0 {
        assert(spec_insert_ranked(s, c) =~= s.insert(0, c));
    } else if j == 0 {
        assert(spec_insert_ranked(s, c) =~= s.insert(0, c));
    } else {
        assert(!rank_le(c, s[0]));
        let rest = s.drop_first();
        lemma_insert_ranked_at(rest, c, j - 1);
        assert(seq![s[0]] + rest.insert(j - 1, c) =~= s.insert(j, c));
    }
}

/// Inserts a candidate at its rank position in an already ranked vector.
fn insert_ranked(sorted: &mut Vec<Component>, c: Component)
    ensures
        final(sorted)@ == spec_insert_ranked(old(sorted)@, c),
{
    let ghost s = sorted@;
    let mut j: usize = 0;
    while j < sorted.len() && !rank_before(&c, &sorted[j])
        invariant
            sorted@ == s,
            j <= s.len(),
            forall|k: int| 0 <= k < j ==> !rank_le(c, #[trigger] s[k]),
        decreases s.len() - j,
    {
        j = j + 1;
    }
    proof {
        lemma_insert_ranked_at(s, c, j as int);
    }
    sorted.insert(j, c);
}

/// Ranks a candidate list best-first. The result is exactly the ranking of
/// the input, so two calls on the same candidates return the same order.
pub fn sort_components(components: Vec<Component>) -> (r: Vec<Component>)
    ensures
        r@ == spec_rank(components@),
        is_ranked(r@),
        r@.to_multiset() == components@.to_multiset(),
        r@.len() == components@.len(),
{
    let mut result: Vec<Component> = Vec::new();
    let mut i: usize = 0;
    while i < components.len()
        invariant
            i <= components@.len(),
            result@ == spec_rank(components@.take(i as int)),
        decreases components@.len() - i,
    {
        proof {
            assert(components@.take(i + 1int).drop_last() =~= components@.take(i as int));
            assert(components@.take(i + 1int).last() == components@[i as int]);
        }
        insert_ranked(&mut result, components[i].clone());
        i = i + 1;
    }
    proof {
        assert(components@.take(components@.len() as int) =~= components@);
        lemma_rank_ensures(components@);
    }
    result
}

} // verus!
