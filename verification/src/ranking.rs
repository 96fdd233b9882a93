//! Ranking entries by count: highest count first, ties in their original
//! order, cut to a limit.
use vstd::prelude::*;

verus! {

/// Entry `i` ranks ahead of entry `j`: it has a higher count, or the same
/// count and comes earlier.
pub open spec fn ranks_before(counts: Seq<nat>, i: int, j: int) -> bool {
    counts[i] > counts[j] || (counts[i] == counts[j] && i < j)
}

/// The smaller of two numbers.
pub open spec fn min_nat(a: nat, b: nat) -> nat {
    if a < b {
        a
    } else {
        b
    }
}

/// `order` lists the first `min(limit, n)` of the `n` entries in ranking
/// order: each listed entry ranks ahead of those listed after it, and of
/// every entry left out.
pub open spec fn is_top_ranking(counts: Seq<nat>, limit: nat, order: Seq<int>) -> bool {
    &&& order.len() == min_nat(limit, counts.len())
    &&& forall|a: int| 0 <= a < order.len() ==> 0 <= #[trigger] order[a] < counts.len()
    &&& forall|a: int, b: int|
        0 <= a < b < order.len() ==> ranks_before(counts, #[trigger] order[a], #[trigger] order[b])
    &&& forall|j: int, a: int|
        0 <= j < counts.len() && 0 <= a < order.len() && (forall|b: int|
            0 <= b < order.len() ==> order[b] != j) ==> #[trigger] ranks_before(
            counts,
            order[a],
            j,
        )
}

/// The ranking of entries with these counts, cut to `limit`.
pub open spec fn top_ranking(counts: Seq<nat>, limit: nat) -> Seq<int> {
    choose|order: Seq<int>| is_top_ranking(counts, limit, order)
}

/// Whether `x` is listed in `order`.
pub open spec fn listed(order: Seq<int>, x: int) -> bool {
    exists|b: int| 0 <= b < order.len() && order[b] == x
}

/// There is only one ranking: two orders that both list the top entries
/// in ranking order are the same.
pub proof fn lemma_ranking_unique(counts: Seq<nat>, limit: nat, o1: Seq<int>, o2: Seq<int>)
    requires
        is_top_ranking(counts, limit, o1),
        is_top_ranking(counts, limit, o2),
    ensures
        o1 == o2,
{
    if exists|a: int| 0 <= a < o1.len() && o1[a] != o2[a] {
        let a = choose|a: int|
            0 <= a < o1.len() && o1[a] != o2[a] && forall|k: int| 0 <= k < a ==> o1[k] == o2[k];
        assert(exists|a: int|
            0 <= a < o1.len() && o1[a] != o2[a] && forall|k: int| 0 <= k < a ==> o1[k] == o2[k])
            by {
            lemma_first_difference(o1, o2);
        }
        assert(ranks_before(counts, o1[a], o2[a])) by {
            lemma_ahead_of_other(counts, limit, o1, o2, a);
        }
        assert(ranks_before(counts, o2[a], o1[a])) by {
            lemma_ahead_of_other(counts, limit, o2, o1, a);
        }
    }
    assert(o1 =~= o2);
}

/// Two different orders of the same length differ first somewhere.
proof fn lemma_first_difference(o1: Seq<int>, o2: Seq<int>)
    requires
        o1.len() == o2.len(),
        exists|a: int| 0 <= a < o1.len() && o1[a] != o2[a],
    ensures
        exists|a: int|
            0 <= a < o1.len() && o1[a] != o2[a] && forall|k: int| 0 <= k < a ==> o1[k] == o2[k],
    decreases o1.len(),
{
    let a = choose|a: int| 0 <= a < o1.len() && o1[a] != o2[a];
    lemma_first_difference_below(o1, o2, a);
}

/// Below a difference at `a` there is a first difference.
proof fn lemma_first_difference_below(o1: Seq<int>, o2: Seq<int>, a: int)
    requires
        o1.len() == o2.len(),
        0 <= a < o1.len(),
        o1[a] != o2[a],
    ensures
        exists|d: int|
            0 <= d < o1.len() && o1[d] != o2[d] && forall|k: int| 0 <= k < d ==> o1[k] == o2[k],
    decreases a,
{
    if exists|k: int| 0 <= k < a && o1[k] != o2[k] {
        let k = choose|k: int| 0 <= k < a && o1[k] != o2[k];
        lemma_first_difference_below(o1, o2, k);
    } else {
        assert(forall|k: int| 0 <= k < a ==> o1[k] == o2[k]);
    }
}

/// Where two rankings first differ, at `a`, the entry of the first ranks
/// ahead of the entry of the second.
proof fn lemma_ahead_of_other(counts: Seq<nat>, limit: nat, o1: Seq<int>, o2: Seq<int>, a: int)
    requires
        is_top_ranking(counts, limit, o1),
        is_top_ranking(counts, limit, o2),
        0 <= a < o1.len(),
        o1[a] != o2[a],
        forall|k: int| 0 <= k < a ==> o1[k] == o2[k],
    ensures
        ranks_before(counts, o1[a], o2[a]),
{
    let x = o2[a];
    if exists|b: int| 0 <= b < o1.len() && o1[b] == x {
        let b = choose|b: int| 0 <= b < o1.len() && o1[b] == x;
        if b < a {
            assert(o2[b] == x);
            assert(ranks_before(counts, o2[b], o2[a]));
        } else {
            assert(b != a);
            assert(ranks_before(counts, o1[a], o1[b]));
        }
    } else {
        assert(forall|b: int| 0 <= b < o1.len() ==> o1[b] != x);
        assert(ranks_before(counts, o1[a], x));
    }
}

/// The counts of a vector, as numbers.
pub open spec fn counts_view(counts: Seq<u64>) -> Seq<nat> {
    Seq::new(counts.len(), |i: int| counts[i] as nat)
}

/// The indices of an order, as numbers.
pub open spec fn order_view(order: Seq<usize>) -> Seq<int> {
    Seq::new(order.len(), |i: int| order[i] as int)
}

/// The positions of the top `limit` entries, highest count first and ties
/// in their original order (a stable sort by descending count, cut to
/// `limit`).
pub fn top_ranked(counts: &Vec<u64>, limit: usize) -> (order: Vec<usize>)
    ensures
        is_top_ranking(counts_view(counts@), limit as nat, order_view(order@)),
        order_view(order@) == top_ranking(counts_view(counts@), limit as nat),
{
    let ghost cs = counts_view(counts@);
    let mut r: Vec<usize> = Vec::new();
    let mut j: usize = 0;
    while j < counts.len()
        invariant
            j <= counts@.len(),
            cs == counts_view(counts@),
            r@.len() == min_nat(limit as nat, j as nat),
            forall|a: int| 0 <= a < r@.len() ==> (#[trigger] r@[a]) < j,
            forall|a: int, b: int|
                0 <= a < b < r@.len() ==> ranks_before(
                    cs,
                    #[trigger] r@[a] as int,
                    #[trigger] r@[b] as int,
                ),
            forall|x: int, a: int|
                0 <= x < j && 0 <= a < r@.len() && (forall|b: int|
                    0 <= b < r@.len() ==> r@[b] != x) ==> #[trigger] ranks_before(
                    cs,
                    r@[a] as int,
                    x,
                ),
            r@.len() < limit ==> forall|x: int|
                0 <= x < j ==> #[trigger] listed(order_view(r@), x),
        decreases counts@.len() - j,
    {
        let c = counts[j];
        let mut p: usize = 0;
        while p < r.len() && counts[r[p]] >= c
            invariant
                p <= r@.len(),
                j < counts@.len(),
                forall|a: int| 0 <= a < r@.len() ==> (#[trigger] r@[a]) < j,
                forall|a: int| 0 <= a < p ==> counts@[#[trigger] r@[a] as int] >= c,
            decreases r@.len() - p,
        {
            p = p + 1;
        }
        let ghost old_r = r@;
        let ghost len = old_r.len();
        r.insert(p, j);
        assert(r@ == old_r.insert(p as int, j));
        // Entries of the old ranking before p rank ahead of j; j ranks ahead
        // of those from p on.
        assert forall|a: int, b: int| 0 <= a < b < r@.len() implies ranks_before(
            cs,
            #[trigger] r@[a] as int,
            #[trigger] r@[b] as int,
        ) by {
            if b < p {
            } else if b == p {
                assert(counts@[old_r[a] as int] >= c);
            } else if a < p {
                assert(ranks_before(cs, old_r[a] as int, old_r[b - 1] as int));
            } else if a == p {
                assert(counts@[old_r[p as int] as int] < c);
                if b - 1 > p {
                    assert(ranks_before(cs, old_r[p as int] as int, old_r[b - 1] as int));
                }
            } else {
                assert(ranks_before(cs, old_r[a - 1] as int, old_r[b - 1] as int));
            }
        }
        if r.len() > limit {
            let ghost with_j = r@;
            r.pop();
            assert(r@ =~= with_j.drop_last());
            assert forall|x: int, a: int|
                0 <= x < j + 1 && 0 <= a < r@.len() && (forall|b: int|
                    0 <= b < r@.len() ==> r@[b] != x) implies #[trigger] ranks_before(
                cs,
                r@[a] as int,
                x,
            ) by {
                assert(with_j[a] == r@[a]);
                let d = with_j[len as int] as int;
                if x == d {
                    assert(ranks_before(cs, with_j[a] as int, with_j[len as int] as int));
                } else if x == j {
                    if p < len {
                        assert(r@[p as int] == j);
                    }
                } else {
                    assert forall|b: int| 0 <= b < len implies old_r[b] != x by {
                        if b < p {
                            assert(with_j[b] == old_r[b]);
                            assert(r@[b] == old_r[b]);
                        } else {
                            assert(with_j[b + 1] == old_r[b]);
                            if b + 1 < len {
                                assert(r@[b + 1] == old_r[b]);
                            }
                        }
                    }
                    if a < p {
                        assert(r@[a] == old_r[a]);
                        assert(ranks_before(cs, old_r[a] as int, x));
                    } else if a == p {
                        assert(r@[a] == j);
                        assert(ranks_before(cs, old_r[len - 1] as int, x));
                        assert(counts@[old_r[p as int] as int] < c);
                        if len - 1 > p {
                            assert(ranks_before(cs, old_r[p as int] as int, old_r[len - 1] as int));
                        }
                    } else {
                        assert(r@[a] == old_r[a - 1]);
                        assert(ranks_before(cs, old_r[a - 1] as int, x));
                    }
                }
            }
        } else {
            assert forall|x: int, a: int|
                0 <= x < j + 1 && 0 <= a < r@.len() && (forall|b: int|
                    0 <= b < r@.len() ==> r@[b] != x) implies #[trigger] ranks_before(
                cs,
                r@[a] as int,
                x,
            ) by {
                assert(r@[p as int] == j);
                assert(listed(order_view(old_r), x));
                let b = choose|b: int| 0 <= b < old_r.len() && order_view(old_r)[b] == x;
                if b < p {
                    assert(r@[b] == old_r[b]);
                } else {
                    assert(r@[b + 1] == old_r[b]);
                }
            }
            if r.len() < limit {
                assert forall|x: int| 0 <= x < j + 1 implies #[trigger] listed(
                    order_view(r@),
                    x,
                ) by {
                    if x == j {
                        assert(order_view(r@)[p as int] == x);
                    } else {
                        assert(listed(order_view(old_r), x));
                        let b = choose|b: int| 0 <= b < old_r.len() && order_view(old_r)[b] == x;
                        if b < p {
                            assert(order_view(r@)[b] == x);
                        } else {
                            assert(order_view(r@)[b + 1] == x);
                        }
                    }
                }
            }
        }
        j = j + 1;
    }
    let ghost o = order_view(r@);
    assert forall|x: int, a: int|
        0 <= x < cs.len() && 0 <= a < o.len() && (forall|b: int| 0 <= b < o.len() ==> o[b] != x)
        implies #[trigger] ranks_before(cs, o[a], x) by {
        assert forall|b: int| 0 <= b < r@.len() implies r@[b] != x by {
            assert(o[b] == r@[b] as int);
        }
    }
    assert forall|a: int, b: int| 0 <= a < b < o.len() implies ranks_before(
        cs,
        #[trigger] o[a],
        #[trigger] o[b],
    ) by {
        assert(ranks_before(cs, r@[a] as int, r@[b] as int));
    }
    assert(is_top_ranking(cs, limit as nat, o));
    proof {
        lemma_ranking_unique(cs, limit as nat, o, top_ranking(cs, limit as nat));
    }
    r
}

} // verus!
