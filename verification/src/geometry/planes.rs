//! 3D Voronoi bisector planes: one plane between every pair of centroids.
//!
//! True 3D Voronoi cells are convex polyhedra and computing them is
//! non-trivial; for visualization the host draws the perpendicular bisector
//! plane of every pair of centroids, clipped to the world cube. This module
//! enumerates the pairs.

use vstd::prelude::*;

verus! {

/// The pairs `(i, j)`, `i < j < n`, whose first element is below `upto`,
/// in lexicographic order.
pub open spec fn pairs_below(n: nat, upto: nat) -> Seq<(usize, usize)>
    decreases upto,
{
    if upto == 0 {
        Seq::empty()
    } else {
        let i = (upto - 1) as nat;
        pairs_below(n, i) + Seq::new(
            if n > i + 1 {
                (n - i - 1) as nat
            } else {
                0
            },
            |t: int| (i as usize, (i + 1 + t) as usize),
        )
    }
}

/// Every unordered pair of `n` centroids once, as `(lower, higher)`, in
/// lexicographic order: the pairs that get a bisector plane. Empty for
/// fewer than two centroids.
pub fn bisector_pairs(n: usize) -> (r: Vec<(usize, usize)>)
    ensures
        r@ == pairs_below(n as nat, n as nat),
{
    let mut out: Vec<(usize, usize)> = Vec::new();
    for i in 0..n
        invariant
            out@ == pairs_below(n as nat, i as nat),
    {
        let ghost before = out@;
        let mut j: usize = i + 1;
        while j < n
            invariant
                i < n,
                i + 1 <= j <= n,
                out@ == before + Seq::new(
                    (j - i - 1) as nat,
                    |t: int| (i as usize, (i + 1 + t) as usize),
                ),
            decreases n - j,
        {
            out.push((i, j));
            j += 1;
        }
        assert(out@ =~= pairs_below(n as nat, (i + 1) as nat));
    }
    out
}

/// `a` comes before `b` in lexicographic order.
pub open spec fn lex_before(a: (usize, usize), b: (usize, usize)) -> bool {
    a.0 < b.0 || (a.0 == b.0 && a.1 < b.1)
}

proof fn pairs_below_facts(n: nat, u: nat)
    requires
        u <= n,
        n <= usize::MAX,
    ensures
        2 * pairs_below(n, u).len() == u * (2 * n - u - 1),
        forall|t: int|
            0 <= t < pairs_below(n, u).len() ==> {
                let p = #[trigger] pairs_below(n, u)[t];
                p.0 < u && p.0 < p.1 < n
            },
        forall|t1: int, t2: int|
            0 <= t1 < t2 < pairs_below(n, u).len() ==> lex_before(
                #[trigger] pairs_below(n, u)[t1],
                #[trigger] pairs_below(n, u)[t2],
            ),
        forall|i: usize, j: usize|
            i < u && i < j < n ==> #[trigger] pairs_below(n, u).contains((i, j)),
    decreases u,
{
    if u > 0 {
        let i = (u - 1) as nat;
        pairs_below_facts(n, i);
        let prev = pairs_below(n, i);
        let block = Seq::new(
            if n > i + 1 {
                (n - i - 1) as nat
            } else {
                0
            },
            |t: int| (i as usize, (i + 1 + t) as usize),
        );
        let all = pairs_below(n, u);
        assert(all == prev + block);
        assert(block.len() == n - i - 1);
        assert(u * (2 * n - u - 1) == i * (2 * n - i - 1) + 2 * (n - i - 1)) by (nonlinear_arith)
            requires
                u == i + 1,
        ;
        assert forall|t: int| 0 <= t < block.len() implies (#[trigger] block[t]).0 == i && block[
            t].1 == i + 1 + t by {}
        assert forall|t: int| 0 <= t < all.len() implies {
            let p = #[trigger] all[t];
            p.0 < u && p.0 < p.1 < n
        } by {
            if t >= prev.len() {
                assert(all[t] == block[t - prev.len()]);
            } else {
                assert(all[t] == prev[t]);
            }
        }
        assert forall|t1: int, t2: int| 0 <= t1 < t2 < all.len() implies lex_before(
            #[trigger] all[t1],
            #[trigger] all[t2],
        ) by {
            if t2 < prev.len() {
                assert(all[t1] == prev[t1] && all[t2] == prev[t2]);
            } else if t1 < prev.len() {
                assert(all[t1] == prev[t1]);
                assert(all[t2] == block[t2 - prev.len()]);
            } else {
                assert(all[t1] == block[t1 - prev.len()]);
                assert(all[t2] == block[t2 - prev.len()]);
            }
        }
        assert forall|a: usize, b: usize| a < u && a < b < n implies #[trigger] all.contains(
            (a, b),
        ) by {
            if a < i {
                assert(prev.contains((a, b)));
                let t = choose|t: int| 0 <= t < prev.len() && prev[t] == (a, b);
                assert(all[t] == prev[t]);
            } else {
                let t = prev.len() + (b - i - 1);
                assert(all[t] == block[b - i - 1]);
            }
        }
    }
}

/// One bisector plane between each pair of centroids: the pairs are
/// exactly the `(i, j)` with `i < j < n`, each once, in lexicographic
/// order; there are `n * (n - 1) / 2` of them, none for fewer than two
/// centroids.
pub proof fn bisector_pairs_are_all_pairs(n: nat)
    requires
        n <= usize::MAX,
    ensures
        pairs_below(n, n).len() == n * (n - 1) / 2,
        forall|t: int|
            0 <= t < pairs_below(n, n).len() ==> {
                let p = #[trigger] pairs_below(n, n)[t];
                p.0 < p.1 < n
            },
        forall|t1: int, t2: int|
            0 <= t1 < t2 < pairs_below(n, n).len() ==> lex_before(
                #[trigger] pairs_below(n, n)[t1],
                #[trigger] pairs_below(n, n)[t2],
            ),
        forall|i: usize, j: usize| i < j < n ==> #[trigger] pairs_below(n, n).contains((i, j)),
{
    pairs_below_facts(n, n);
    assert(n * (2 * n - n - 1) == n * (n - 1)) by (nonlinear_arith);
}

} // verus!
