//! State container for an in-progress k-means run.

use vstd::prelude::*;

verus! {

/// State of a k-means run over points of type `P` (2D or 3D).
///
/// Invariant after any successful step (see [`KMeansState::wf`]):
/// `assignments.len() == points.len()` and every value in `assignments`
/// is in `0..centroids.len()`.
#[derive(Debug, Clone)]
pub struct KMeansState<P> {
    pub points: Vec<P>,
    pub centroids: Vec<P>,
    pub assignments: Vec<usize>,
    pub iteration: usize,
}

impl<P> KMeansState<P> {
    /// Every point has exactly one assignment, and each names a centroid.
    pub open spec fn wf(&self) -> bool {
        &&& self.assignments.len() == self.points.len()
        &&& forall|i: int|
            0 <= i < self.assignments.len() ==> #[trigger] self.assignments[i]
                < self.centroids.len()
    }

    /// A fresh run: every point provisionally in cluster 0, iteration 0.
    pub fn new(points: Vec<P>, centroids: Vec<P>) -> (s: Self)
        ensures
            s.points == points,
            s.centroids == centroids,
            s.assignments@ == Seq::new(points.len() as nat, |i: int| 0usize),
            s.iteration == 0,
    {
        let mut s = KMeansState { points, centroids, assignments: Vec::new(), iteration: 0 };
        s.reset_assignments();
        s
    }

    /// The number of clusters.
    pub fn k(&self) -> (r: usize)
        ensures
            r == self.centroids.len(),
    {
        self.centroids.len()
    }

    /// Replace the point set (a regenerated or cleared dataset): every new
    /// point provisionally in cluster 0, iteration 0, centroids kept. The
    /// invariant holds afterwards whenever there is a centroid or no point.
    pub fn replace_points(&mut self, points: Vec<P>)
        ensures
            final(self).points == points,
            final(self).centroids == old(self).centroids,
            final(self).assignments@ == Seq::new(points.len() as nat, |i: int| 0usize),
            final(self).iteration == 0,
            (points.len() == 0 || old(self).centroids.len() > 0) ==> final(self).wf(),
    {
        self.points = points;
        self.reset_assignments();
        self.iteration = 0;
    }

    /// Put every point provisionally into cluster 0 (the colours shown
    /// while there is no centroid to assign to). The invariant holds
    /// afterwards whenever there is a centroid or no point.
    pub fn reset_assignments(&mut self)
        ensures
            final(self).assignments@ == Seq::new(old(self).points.len() as nat, |i: int| 0usize),
            final(self).points == old(self).points,
            final(self).centroids == old(self).centroids,
            final(self).iteration == old(self).iteration,
            (old(self).points.len() == 0 || old(self).centroids.len() > 0) ==> final(self).wf(),
    {
        let n = self.points.len();
        let mut assignments: Vec<usize> = Vec::new();
        for i in 0..n
            invariant
                assignments@ == Seq::new(i as nat, |j: int| 0usize),
        {
            assignments.push(0);
        }
        self.assignments = assignments;
    }

    /// Add a hand-placed point, assigned to `cluster`. Points and
    /// assignments stay aligned; the invariant is kept when `cluster` names
    /// a centroid.
    pub fn add_point(&mut self, p: P, cluster: usize)
        ensures
            final(self).points@ == old(self).points@.push(p),
            final(self).assignments@ == old(self).assignments@.push(cluster),
            final(self).centroids == old(self).centroids,
            final(self).iteration == old(self).iteration,
            old(self).wf() && cluster < old(self).centroids.len() ==> final(self).wf(),
    {
        self.points.push(p);
        self.assignments.push(cluster);
    }

    /// Delete point `i` together with its assignment (if it has one). The
    /// invariant is kept.
    pub fn remove_point(&mut self, i: usize)
        requires
            i < old(self).points.len(),
        ensures
            final(self).points@ == old(self).points@.remove(i as int),
            final(self).assignments@ == if i < old(self).assignments.len() {
                old(self).assignments@.remove(i as int)
            } else {
                old(self).assignments@
            },
            final(self).centroids == old(self).centroids,
            final(self).iteration == old(self).iteration,
            old(self).wf() ==> final(self).wf(),
    {
        self.points.remove(i);
        if i < self.assignments.len() {
            self.assignments.remove(i);
        }
        proof {
            if old(self).wf() {
                assert forall|j: int| 0 <= j < self.assignments.len() implies #[trigger]
                    self.assignments[j] < self.centroids.len() by {
                    if j >= i {
                        assert(self.assignments[j] == old(self).assignments[j + 1]);
                    } else {
                        assert(self.assignments[j] == old(self).assignments[j]);
                    }
                }
            }
        }
    }

    /// Put a hand-placed centroid into slot `idx` of `k`: when the slot
    /// does not exist yet, the centroid list is first grown to `k` entries
    /// filled with `p`. Every other centroid stays.
    pub fn place_centroid(&mut self, idx: usize, k: usize, p: P)
        where P: Copy,
        requires
            idx < k,
        ensures
            final(self).centroids@ == if idx < old(self).centroids.len() {
                old(self).centroids@.update(idx as int, p)
            } else {
                old(self).centroids@ + Seq::new((k - old(self).centroids.len()) as nat, |j: int| p)
            },
            final(self).points == old(self).points,
            final(self).assignments == old(self).assignments,
            final(self).iteration == old(self).iteration,
    {
        if idx >= self.centroids.len() {
            let ghost start = self.centroids@;
            while self.centroids.len() < k
                invariant
                    start.len() <= self.centroids.len() <= k,
                    self.centroids@ == start + Seq::new(
                        (self.centroids.len() - start.len()) as nat,
                        |j: int| p,
                    ),
                    self.points == old(self).points,
                    self.assignments == old(self).assignments,
                    self.iteration == old(self).iteration,
                    start == old(self).centroids@,
                decreases k - self.centroids.len(),
            {
                self.centroids.push(p);
                assert(self.centroids@ =~= start + Seq::new(
                    (self.centroids.len() - start.len()) as nat,
                    |j: int| p,
                ));
            }
            self.centroids.set(idx, p);
            assert(self.centroids@ =~= start + Seq::new((k - start.len()) as nat, |j: int| p));
        } else {
            self.centroids.set(idx, p);
        }
    }
}

} // verus!
