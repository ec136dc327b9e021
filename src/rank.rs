//! Ordering of matched snippets: by descending score, ties kept in their
//! corpus order.

use vstd::prelude::*;

verus! {

/// Entry `a` comes before entry `b`: a higher score, or an equal score and
/// an earlier position.
pub open spec fn ranks_before(scores: Seq<Option<i64>>, a: int, b: int) -> bool {
    ||| scores[a]->0 > scores[b]->0
    ||| (scores[a]->0 == scores[b]->0 && a < b)
}

/// `order` lists exactly the scored positions of `scores`, best first, ties in
/// position order.
pub open spec fn is_ranking(scores: Seq<Option<i64>>, order: Seq<usize>) -> bool {
    &&& forall|p: int|
        0 <= p < order.len() ==> #[trigger] order[p] < scores.len() && scores[order[p] as int] is Some
    &&& forall|i: int|
        0 <= i < scores.len() && #[trigger] scores[i] is Some ==> order.contains(i as usize)
    &&& forall|p: int, q: int|
        0 <= p < q < order.len() ==> ranks_before(scores, #[trigger] order[p] as int, #[trigger] order[q] as int)
}

/// The ranking of `scores` (there is exactly one, see `lemma_ranking_unique`).
pub open spec fn ranking(scores: Seq<Option<i64>>) -> Seq<usize> {
    choose|order: Seq<usize>| is_ranking(scores, order)
}

/// Two rankings of the same scores are equal.
pub proof fn lemma_ranking_unique(scores: Seq<Option<i64>>, a: Seq<usize>, b: Seq<usize>)
    requires
        is_ranking(scores, a),
        is_ranking(scores, b),
    ensures
        a == b,
{
    lemma_sorted_same_members(scores, a, b);
}

proof fn lemma_sorted_same_members(scores: Seq<Option<i64>>, a: Seq<usize>, b: Seq<usize>)
    requires
        forall|p: int| 0 <= p < a.len() ==> #[trigger] a[p] < scores.len() && scores[a[p] as int] is Some,
        forall|p: int| 0 <= p < b.len() ==> #[trigger] b[p] < scores.len() && scores[b[p] as int] is Some,
        forall|p: int, q: int|
            0 <= p < q < a.len() ==> ranks_before(scores, #[trigger] a[p] as int, #[trigger] a[q] as int),
        forall|p: int, q: int|
            0 <= p < q < b.len() ==> ranks_before(scores, #[trigger] b[p] as int, #[trigger] b[q] as int),
        forall|x: usize| a.contains(x) <==> b.contains(x),
    ensures
        a == b,
    decreases a.len() + b.len(),
{
    if a.len() == 0 {
        if b.len() > 0 {
            assert(b.contains(b[0]));
        }
        assert(b =~= a);
    } else if b.len() == 0 {
        assert(a.contains(a[0]));
    } else {
        assert(a.contains(a[0]));
        assert(b.contains(b[0]));
        let pa = choose|p: int| 0 <= p < a.len() && a[p] == b[0];
        let pb = choose|p: int| 0 <= p < b.len() && b[p] == a[0];
        if pa > 0 && pb > 0 {
            assert(ranks_before(scores, a[0] as int, a[pa] as int));
            assert(ranks_before(scores, b[0] as int, b[pb] as int));
        }
        assert(a[0] == b[0]);
        let a2 = a.drop_first();
        let b2 = b.drop_first();
        assert forall|x: usize| a2.contains(x) <==> b2.contains(x) by {
            if a2.contains(x) {
                let p = choose|p: int| 0 <= p < a2.len() && a2[p] == x;
                assert(a[p + 1] == x);
                assert(ranks_before(scores, a[0] as int, a[p + 1] as int));
                assert(a.contains(x));
                let q = choose|q: int| 0 <= q < b.len() && b[q] == x;
                assert(q != 0);
                assert(b2[q - 1] == x);
            }
            if b2.contains(x) {
                let p = choose|p: int| 0 <= p < b2.len() && b2[p] == x;
                assert(b[p + 1] == x);
                assert(ranks_before(scores, b[0] as int, b[p + 1] as int));
                assert(b.contains(x));
                let q = choose|q: int| 0 <= q < a.len() && a[q] == x;
                assert(q != 0);
                assert(a2[q - 1] == x);
            }
        }
        assert forall|p: int, q: int| 0 <= p < q < a2.len() implies ranks_before(
            scores,
            #[trigger] a2[p] as int,
            #[trigger] a2[q] as int,
        ) by {
            assert(a2[p] == a[p + 1] && a2[q] == a[q + 1]);
        }
        assert forall|p: int, q: int| 0 <= p < q < b2.len() implies ranks_before(
            scores,
            #[trigger] b2[p] as int,
            #[trigger] b2[q] as int,
        ) by {
            assert(b2[p] == b[p + 1] && b2[q] == b[q + 1]);
        }
        lemma_sorted_same_members(scores, a2, b2);
        assert(a =~= seq![a[0]] + a2);
        assert(b =~= seq![b[0]] + b2);
    }
}

/// A ranking that is known to exist is the one `ranking` names.
pub proof fn lemma_is_the_ranking(scores: Seq<Option<i64>>, order: Seq<usize>)
    requires
        is_ranking(scores, order),
    ensures
        ranking(scores) == order,
{
    let r = ranking(scores);
    assert(is_ranking(scores, r));
    lemma_ranking_unique(scores, r, order);
}

/// Every entry of `order` is a scored position below `bound`, and `order`
/// is strictly ordered by `ranks_before`.
pub open spec fn sorted_below(scores: Seq<Option<i64>>, order: Seq<usize>, bound: int) -> bool {
    &&& forall|p: int|
        0 <= p < order.len() ==> #[trigger] order[p] < bound && bound <= scores.len() && scores[order[p] as int] is Some
    &&& forall|p: int, q: int|
        0 <= p < q < order.len() ==> ranks_before(scores, #[trigger] order[p] as int, #[trigger] order[q] as int)
}

/// The first place in `order` whose score is below `s`.
fn insertion_point(scores: &Vec<Option<i64>>, order: &Vec<usize>, s: i64, Ghost(bound): Ghost<int>) -> (p: usize)
    requires
        sorted_below(scores@, order@, bound),
    ensures
        p <= order@.len(),
        forall|k: int| 0 <= k < p ==> scores@[#[trigger] order@[k] as int]->0 >= s,
        forall|k: int| p <= k < order@.len() ==> scores@[#[trigger] order@[k] as int]->0 < s,
{
    let mut p: usize = 0;
    while p < order.len()
        invariant
            sorted_below(scores@, order@, bound),
            p <= order@.len(),
            forall|k: int| 0 <= k < p ==> scores@[#[trigger] order@[k] as int]->0 >= s,
        decreases order.len() - p,
    {
        let here = match scores[order[p]] {
            Some(x) => x,
            None => s,
        };
        if here < s {
            assert forall|k: int| p <= k < order@.len() implies scores@[#[trigger] order@[k] as int]->0 < s by {
                if k > p {
                    assert(ranks_before(scores@, order@[p as int] as int, order@[k] as int));
                }
            }
            return p;
        }
        p = p + 1;
    }
    p
}

proof fn lemma_insert_keeps_order(scores: Seq<Option<i64>>, order: Seq<usize>, p: int, i: usize)
    requires
        sorted_below(scores, order, i as int),
        i < scores.len(),
        scores[i as int] is Some,
        0 <= p <= order.len(),
        forall|k: int| 0 <= k < p ==> scores[#[trigger] order[k] as int]->0 >= scores[i as int]->0,
        forall|k: int| p <= k < order.len() ==> scores[#[trigger] order[k] as int]->0 < scores[i as int]->0,
    ensures
        sorted_below(scores, order.insert(p, i), i + 1),
        forall|j: int| #![trigger order.contains(j as usize)]
            order.contains(j as usize) ==> order.insert(p, i).contains(j as usize),
        order.insert(p, i).contains(i),
{
    let out = order.insert(p, i);
    assert(out[p] == i);
    assert forall|j: int| #![trigger order.contains(j as usize)]
        order.contains(j as usize) implies out.contains(j as usize) by {
        let q = choose|q: int| 0 <= q < order.len() && order[q] == j as usize;
        if q < p {
            assert(out[q] == j as usize);
        } else {
            assert(out[q + 1] == j as usize);
        }
    }
    assert forall|a: int, b: int| 0 <= a < b < out.len() implies ranks_before(
        scores,
        #[trigger] out[a] as int,
        #[trigger] out[b] as int,
    ) by {
        if a < p && b < p {
            assert(out[a] == order[a] && out[b] == order[b]);
        } else if a < p && b == p {
            assert(out[a] == order[a]);
        } else if a < p {
            assert(out[a] == order[a] && out[b] == order[b - 1]);
        } else if a == p {
            assert(out[b] == order[b - 1]);
        } else {
            assert(out[a] == order[a - 1] && out[b] == order[b - 1]);
        }
    }
    assert forall|a: int| 0 <= a < out.len() implies #[trigger] out[a] < i + 1 && i + 1 <= scores.len()
        && scores[out[a] as int] is Some by {
        if a < p {
            assert(out[a] == order[a]);
        } else if a > p {
            assert(out[a] == order[a - 1]);
        }
    }
}

/// The first place at or after `p` in `order` whose score is below `s`.
pub open spec fn split_point(scores: Seq<Option<i64>>, order: Seq<usize>, s: i64, p: int) -> int
    decreases order.len() - p,
{
    if p >= order.len() || p < 0 {
        p
    } else if scores[order[p] as int]->0 < s {
        p
    } else {
        split_point(scores, order, s, p + 1)
    }
}

proof fn lemma_split_point(scores: Seq<Option<i64>>, order: Seq<usize>, s: i64, p: int, bound: int)
    requires
        sorted_below(scores, order, bound),
        0 <= p <= order.len(),
        forall|k: int| 0 <= k < p ==> scores[#[trigger] order[k] as int]->0 >= s,
    ensures
        p <= split_point(scores, order, s, p) <= order.len(),
        forall|k: int|
            0 <= k < split_point(scores, order, s, p) ==> scores[#[trigger] order[k] as int]->0 >= s,
        forall|k: int|
            split_point(scores, order, s, p) <= k < order.len() ==> scores[#[trigger] order[k] as int]->0
                < s,
    decreases order.len() - p,
{
    if p < order.len() {
        if scores[order[p] as int]->0 < s {
            assert forall|k: int| p <= k < order.len() implies scores[#[trigger] order[k] as int]->0 < s by {
                if k > p {
                    assert(ranks_before(scores, order[p] as int, order[k] as int));
                }
            }
        } else {
            lemma_split_point(scores, order, s, p + 1, bound);
        }
    }
}

/// A sorted list of the scored positions below `i`, built one position at a
/// time.
proof fn lemma_ranking_prefix(scores: Seq<Option<i64>>, i: usize) -> (order: Seq<usize>)
    requires
        i <= scores.len(),
    ensures
        sorted_below(scores, order, i as int),
        forall|j: int| 0 <= j < i && #[trigger] scores[j] is Some ==> order.contains(j as usize),
        order.len() <= i,
    decreases i,
{
    if i == 0 {
        Seq::<usize>::empty()
    } else {
        let j = (i - 1) as usize;
        let o = lemma_ranking_prefix(scores, j);
        if scores[j as int] is Some {
            let s = scores[j as int]->0;
            lemma_split_point(scores, o, s, 0, j as int);
            let p = split_point(scores, o, s, 0);
            lemma_insert_keeps_order(scores, o, p, j);
            o.insert(p, j)
        } else {
            o
        }
    }
}

/// Every score list has a ranking, so `ranking` names one.
pub proof fn lemma_ranking_exists(scores: Seq<Option<i64>>)
    requires
        scores.len() <= usize::MAX,
    ensures
        is_ranking(scores, ranking(scores)),
        ranking(scores).len() <= scores.len(),
{
    let o = lemma_ranking_prefix(scores, scores.len() as usize);
    assert(is_ranking(scores, o));
    lemma_is_the_ranking(scores, o);
}

/// A corpus position after the entry at `k` was removed.
pub open spec fn shift_down(x: usize, k: usize) -> usize {
    if x > k {
        (x - 1) as usize
    } else {
        x
    }
}

/// `order` without the entry `k`, with the positions after `k` moved down by
/// one: the same list over a corpus that lost its entry `k`.
pub open spec fn without_index(order: Seq<usize>, k: usize) -> Seq<usize>
    decreases order.len(),
{
    if order.len() == 0 {
        order
    } else {
        let rest = without_index(order.drop_last(), k);
        if order.last() == k {
            rest
        } else {
            rest.push(shift_down(order.last(), k))
        }
    }
}

proof fn lemma_without_index(scores: Seq<Option<i64>>, order: Seq<usize>, k: usize)
    requires
        k < scores.len(),
        forall|p: int|
            0 <= p < order.len() ==> #[trigger] order[p] < scores.len() && scores[order[p] as int] is Some,
        forall|p: int, q: int|
            0 <= p < q < order.len() ==> ranks_before(scores, #[trigger] order[p] as int, #[trigger] order[q] as int),
    ensures
        forall|p: int|
            0 <= p < without_index(order, k).len() ==> #[trigger] without_index(order, k)[p] < scores.len() - 1
                && scores.remove(k as int)[without_index(order, k)[p] as int] is Some,
        forall|p: int, q: int|
            0 <= p < q < without_index(order, k).len() ==> ranks_before(
                scores.remove(k as int),
                #[trigger] without_index(order, k)[p] as int,
                #[trigger] without_index(order, k)[q] as int,
            ),
        forall|y: usize|
            without_index(order, k).contains(y) <==> exists|j: int|
                0 <= j < order.len() && order[j] != k && #[trigger] shift_down(order[j], k) == y,
    decreases order.len(),
{
    let ns = scores.remove(k as int);
    if order.len() > 0 {
        let init = order.drop_last();
        let rest = without_index(init, k);
        assert forall|p: int, q: int| 0 <= p < q < init.len() implies ranks_before(
            scores,
            #[trigger] init[p] as int,
            #[trigger] init[q] as int,
        ) by {
            assert(init[p] == order[p] && init[q] == order[q]);
        }
        assert forall|p: int| 0 <= p < init.len() implies #[trigger] init[p] < scores.len()
            && scores[init[p] as int] is Some by {
            assert(init[p] == order[p]);
        }
        lemma_without_index(scores, init, k);
        let x = order.last();
        let r = without_index(order, k);
        assert forall|y: usize| r.contains(y) <==> exists|j: int|
            0 <= j < order.len() && order[j] != k && #[trigger] shift_down(order[j], k) == y by {
            if r.contains(y) {
                if x != k && y == shift_down(x, k) {
                    assert(order[order.len() - 1] == x);
                } else {
                    let p = choose|p: int| 0 <= p < r.len() && r[p] == y;
                    if x != k {
                        assert(p < rest.len());
                        assert(rest[p] == y);
                    }
                    assert(rest.contains(y));
                    let j = choose|j: int|
                        0 <= j < init.len() && init[j] != k && #[trigger] shift_down(init[j], k) == y;
                    assert(order[j] == init[j]);
                }
            }
            if exists|j: int| 0 <= j < order.len() && order[j] != k && #[trigger] shift_down(order[j], k) == y {
                let j = choose|j: int|
                    0 <= j < order.len() && order[j] != k && #[trigger] shift_down(order[j], k) == y;
                if j == order.len() - 1 {
                    assert(r[r.len() - 1] == y);
                } else {
                    assert(init[j] == order[j]);
                    assert(rest.contains(y));
                    let p = choose|p: int| 0 <= p < rest.len() && rest[p] == y;
                    if x != k {
                        assert(r[p] == y);
                    }
                }
            }
        }
        if x != k {
            let y = shift_down(x, k);
            assert(ns[y as int] == scores[x as int]);
            assert forall|p: int| 0 <= p < r.len() implies #[trigger] r[p] < scores.len() - 1
                && ns[r[p] as int] is Some by {
                if p == r.len() - 1 {
                    assert(r[p] == y);
                } else {
                    assert(r[p] == rest[p]);
                }
            }
            assert forall|p: int, q: int| 0 <= p < q < r.len() implies ranks_before(
                ns,
                #[trigger] r[p] as int,
                #[trigger] r[q] as int,
            ) by {
                if q == r.len() - 1 {
                    assert(r[p] == rest[p]);
                    assert(rest.contains(rest[p]));
                    let j = choose|j: int|
                        0 <= j < init.len() && init[j] != k && #[trigger] shift_down(init[j], k) == rest[p];
                    assert(order[j] == init[j]);
                    assert(ranks_before(scores, order[j] as int, order[order.len() - 1] as int));
                    let a = order[j];
                    assert(ns[shift_down(a, k) as int] == scores[a as int]);
                    assert(r[q] == y);
                } else {
                    assert(r[p] == rest[p] && r[q] == rest[q]);
                }
            }
        }
    }
}

/// Removing an entry keeps the ranking of the others: the new ranking is the
/// old one without that entry, later positions moved down by one.
pub proof fn lemma_ranking_after_removal(scores: Seq<Option<i64>>, k: usize)
    requires
        k < scores.len() <= usize::MAX,
    ensures
        ranking(scores.remove(k as int)) == without_index(ranking(scores), k),
{
    lemma_ranking_exists(scores);
    let order = ranking(scores);
    let ns = scores.remove(k as int);
    let r = without_index(order, k);
    lemma_without_index(scores, order, k);
    assert forall|i: int| 0 <= i < ns.len() && #[trigger] ns[i] is Some implies r.contains(i as usize) by {
        let x: usize = if i < k { i as usize } else { (i + 1) as usize };
        assert(scores[x as int] == ns[i]);
        assert(order.contains(x));
        let j = choose|j: int| 0 <= j < order.len() && order[j] == x;
        assert(shift_down(order[j], k) == i as usize);
    }
    assert(is_ranking(ns, r));
    lemma_is_the_ranking(ns, r);
}

/// `n` equal scores.
pub open spec fn ties(n: nat) -> Seq<Option<i64>> {
    Seq::new(n, |i: int| Some(0i64))
}

/// Positions `0 .. n` in order.
pub open spec fn positions(n: nat) -> Seq<usize> {
    Seq::new(n, |i: int| i as usize)
}

proof fn lemma_positions_rank_ties(n: nat)
    requires
        n <= usize::MAX,
    ensures
        is_ranking(ties(n), positions(n)),
{
    assert forall|i: int| 0 <= i < n && #[trigger] ties(n)[i] is Some implies positions(n).contains(i as usize) by {
        assert(positions(n)[i] == i as usize);
    }
}

/// Removing position `k` from positions `0 .. n` and moving the later ones
/// down gives positions `0 .. n - 1`.
pub proof fn lemma_positions_after_removal(n: nat, k: usize)
    requires
        k < n <= usize::MAX,
    ensures
        without_index(positions(n), k) == positions((n - 1) as nat),
{
    lemma_positions_rank_ties(n);
    lemma_positions_rank_ties((n - 1) as nat);
    lemma_is_the_ranking(ties(n), positions(n));
    lemma_ranking_after_removal(ties(n), k);
    assert(ties(n).remove(k as int) =~= ties((n - 1) as nat));
    lemma_is_the_ranking(ties((n - 1) as nat), positions((n - 1) as nat));
}

/// The positions of `scores` that hold a score, best first; equal scores
/// keep their position order.
pub fn rank(scores: &Vec<Option<i64>>) -> (order: Vec<usize>)
    ensures
        is_ranking(scores@, order@),
        order@ == ranking(scores@),
{
    let mut out: Vec<usize> = Vec::new();
    let mut i: usize = 0;
    while i < scores.len()
        invariant
            i <= scores.len(),
            sorted_below(scores@, out@, i as int),
            forall|j: int| 0 <= j < i && #[trigger] scores@[j] is Some ==> out@.contains(j as usize),
        decreases scores.len() - i,
    {
        if let Some(s) = scores[i] {
            let p = insertion_point(scores, &out, s, Ghost(i as int));
            proof {
                lemma_insert_keeps_order(scores@, out@, p as int, i);
            }
            out.insert(p, i);
        }
        i = i + 1;
    }
    proof {
        lemma_is_the_ranking(scores@, out@);
    }
    out
}

} // verus!
