//! The k-means iteration, phase by phase.
//!
//! One iteration is: assign every point to its nearest centroid, bucket the
//! points per cluster, decide for every cluster whether its new centroid is
//! the mean of its bucket or a re-seeded existing point, then install the new
//! centroids and decide convergence from how far they moved. Distances and
//! shifts reach this module as ordered keys: `a < b` on the keys exactly when
//! the first distance is smaller than the second.

use crate::kmeans::state::KMeansState;
use crate::random::choose_from;
use rand::rngs::StdRng;
use vstd::prelude::*;

verus! {

/// Outcome of a single iteration step.
#[derive(Debug, Clone, Copy, PartialEq, Eq, Structural)]
pub enum StepOutcome {
    /// Centroids moved by more than the threshold; keep going.
    Moved,
    /// Centroids settled; algorithm has converged.
    Converged,
}

/// `i` is the first position holding the smallest key.
pub open spec fn is_first_min(keys: Seq<u32>, i: int) -> bool {
    &&& 0 <= i < keys.len()
    &&& forall|j: int| 0 <= j < keys.len() ==> keys[i] <= #[trigger] keys[j]
    &&& forall|j: int| 0 <= j < i ==> keys[i] < #[trigger] keys[j]
}

/// The first index of a smallest key, or `None` for no keys: the nearest
/// centroid when `keys[c]` orders the distance to centroid `c`. Ties go to
/// the lower index.
pub fn nearest_index(keys: &Vec<u32>) -> (r: Option<usize>)
    ensures
        r is None <==> keys.len() == 0,
        r matches Some(i) ==> is_first_min(keys@, i as int),
{
    if keys.len() == 0 {
        return None;
    }
    let mut best: usize = 0;
    let mut best_key: u32 = keys[0];
    let mut ci: usize = 1;
    while ci < keys.len()
        invariant
            1 <= ci <= keys.len(),
            best < ci,
            best_key == keys@[best as int],
            forall|j: int| 0 <= j < ci ==> best_key <= #[trigger] keys@[j],
            forall|j: int| 0 <= j < best ==> best_key < #[trigger] keys@[j],
        decreases keys.len() - ci,
    {
        let d = keys[ci];
        if d < best_key {
            best_key = d;
            best = ci;
        }
        ci += 1;
    }
    Some(best)
}

/// The first nearest item, provided its key is at most `limit`: the point
/// deleted by a click, where `keys[i]` orders the distance from the click
/// to point `i` and `limit` the squared deletion radius. `None` when there
/// are no items or the nearest one is too far.
pub fn nearest_within(keys: &Vec<u32>, limit: u32) -> (r: Option<usize>)
    ensures
        r is Some <==> (keys.len() > 0 && exists|i: int|
            is_first_min(keys@, i) && keys@[i] <= limit),
        r matches Some(i) ==> is_first_min(keys@, i as int) && keys@[i as int] <= limit,
{
    match nearest_index(keys) {
        Some(i) => {
            if keys[i] <= limit {
                Some(i)
            } else {
                proof {
                    assert forall|j: int| is_first_min(keys@, j) implies keys@[j] > limit by {
                        assert(keys@[j] <= keys@[i as int] && keys@[i as int] <= keys@[j]);
                    }
                }
                None
            }
        },
        None => None,
    }
}

/// Assign every point to its nearest centroid: `keys[i][c]` orders the
/// distance from point `i` to centroid `c`.
pub fn assign_by_keys<P>(state: &mut KMeansState<P>, keys: &Vec<Vec<u32>>)
    requires
        old(state).centroids.len() >= 1,
        keys.len() == old(state).points.len(),
        old(state).assignments.len() >= old(state).points.len(),
        forall|i: int|
            0 <= i < keys.len() ==> (#[trigger] keys[i]).len() == old(state).centroids.len(),
    ensures
        final(state).points == old(state).points,
        final(state).centroids == old(state).centroids,
        final(state).iteration == old(state).iteration,
        final(state).assignments.len() == old(state).assignments.len(),
        forall|i: int|
            0 <= i < keys.len() ==> is_first_min(
                keys[i]@,
                #[trigger] final(state).assignments[i] as int,
            ),
        forall|i: int|
            keys.len() <= i < old(state).assignments.len()
                ==> #[trigger] final(state).assignments[i] == old(state).assignments[i],
        old(state).assignments.len() == old(state).points.len() ==> final(state).wf(),
{
    let n = keys.len();
    for idx in 0..n
        invariant
            n == keys.len(),
            state.points == old(state).points,
            state.centroids == old(state).centroids,
            state.iteration == old(state).iteration,
            state.assignments.len() == old(state).assignments.len(),
            n <= state.assignments.len(),
            state.centroids.len() >= 1,
            forall|i: int|
                0 <= i < keys.len() ==> (#[trigger] keys[i]).len() == state.centroids.len(),
            forall|i: int|
                0 <= i < idx ==> is_first_min(keys[i]@, #[trigger] state.assignments[i] as int),
            forall|i: int|
                idx <= i < old(state).assignments.len() ==> #[trigger] state.assignments[i]
                    == old(state).assignments[i],
    {
        let best = nearest_index(&keys[idx]);
        let b = match best {
            Some(b) => b,
            None => 0,
        };
        assert(is_first_min(keys[idx as int]@, b as int));
        state.assignments.set(idx, b);
        assert forall|i: int| 0 <= i < idx + 1 implies is_first_min(
            keys[i]@,
            #[trigger] state.assignments[i] as int,
        ) by {
            if i < idx {
            }
        }
    }
}

/// The members of cluster `c` among the first `n` points, in point order.
pub open spec fn cluster_prefix<P>(points: Seq<P>, asg: Seq<usize>, c: int, n: nat) -> Seq<P>
    decreases n,
{
    if n == 0 {
        Seq::empty()
    } else {
        let rest = cluster_prefix(points, asg, c, (n - 1) as nat);
        if asg[n - 1] == c {
            rest.push(points[n - 1])
        } else {
            rest
        }
    }
}

/// The members of cluster `c`, in point order.
pub open spec fn cluster_members<P>(points: Seq<P>, asg: Seq<usize>, c: int) -> Seq<P> {
    cluster_prefix(points, asg, c, points.len())
}

/// The sizes of the first `kk` clusters among the first `n` points, added up.
pub open spec fn members_total<P>(points: Seq<P>, asg: Seq<usize>, kk: nat, n: nat) -> nat
    decreases kk,
{
    if kk == 0 {
        0
    } else {
        members_total(points, asg, (kk - 1) as nat, n) + cluster_prefix(
            points,
            asg,
            (kk - 1) as int,
            n,
        ).len()
    }
}

/// Adding point `n - 1` grows exactly the cluster it is assigned to.
proof fn members_total_step<P>(points: Seq<P>, asg: Seq<usize>, kk: nat, n: nat)
    requires
        n > 0,
    ensures
        members_total(points, asg, kk, n) == members_total(points, asg, kk, (n - 1) as nat) + (
        if asg[n - 1] < kk {
            1int
        } else {
            0int
        }),
    decreases kk,
{
    if kk > 0 {
        members_total_step(points, asg, (kk - 1) as nat, n);
    }
}

/// Bucketing loses and duplicates no point: when every assignment names
/// one of the `k` clusters, the clusters' sizes add up to the number of
/// points.
pub proof fn buckets_partition_points<P>(points: Seq<P>, asg: Seq<usize>, k: nat)
    requires
        asg.len() >= points.len(),
        forall|i: int| 0 <= i < points.len() ==> #[trigger] asg[i] < k,
    ensures
        members_total(points, asg, k, points.len()) == points.len(),
{
    partition_prefix(points, asg, k, points.len());
}

proof fn partition_prefix<P>(points: Seq<P>, asg: Seq<usize>, k: nat, n: nat)
    requires
        n <= points.len(),
        asg.len() >= points.len(),
        forall|i: int| 0 <= i < points.len() ==> #[trigger] asg[i] < k,
    ensures
        members_total(points, asg, k, n) == n,
    decreases n,
{
    if n == 0 {
        zero_prefix_total(points, asg, k);
    } else {
        partition_prefix(points, asg, k, (n - 1) as nat);
        members_total_step(points, asg, k, n);
        assert(asg[n - 1] < k);
    }
}

proof fn zero_prefix_total<P>(points: Seq<P>, asg: Seq<usize>, kk: nat)
    ensures
        members_total(points, asg, kk, 0) == 0,
    decreases kk,
{
    if kk > 0 {
        zero_prefix_total(points, asg, (kk - 1) as nat);
    }
}

/// Bucket the points by assignment: bucket `c` holds the points assigned to
/// cluster `c`, in their original order.
pub fn bucket_points<P: Copy>(points: &Vec<P>, assignments: &Vec<usize>, k: usize) -> (r: Vec<
    Vec<P>,
>)
    requires
        assignments.len() >= points.len(),
        forall|i: int| 0 <= i < points.len() ==> #[trigger] assignments[i] < k,
    ensures
        r.len() == k,
        forall|c: int|
            0 <= c < k ==> (#[trigger] r[c])@ == cluster_members(points@, assignments@, c),
{
    let mut buckets: Vec<Vec<P>> = Vec::new();
    for c in 0..k
        invariant
            buckets.len() == c,
            forall|j: int| 0 <= j < c ==> (#[trigger] buckets[j])@ == Seq::<P>::empty(),
    {
        buckets.push(Vec::new());
    }
    let n = points.len();
    for i in 0..n
        invariant
            n == points.len(),
            assignments.len() >= points.len(),
            forall|j: int| 0 <= j < points.len() ==> #[trigger] assignments[j] < k,
            buckets.len() == k,
            forall|c: int|
                0 <= c < k ==> (#[trigger] buckets[c])@ == cluster_prefix(
                    points@,
                    assignments@,
                    c,
                    i as nat,
                ),
    {
        let a = assignments[i];
        let p = points[i];
        let ghost before = buckets@;
        buckets[a].push(p);
        assert forall|c: int| 0 <= c < k implies (#[trigger] buckets[c])@ == cluster_prefix(
            points@,
            assignments@,
            c,
            (i + 1) as nat,
        ) by {
            if c != a as int {
                assert(buckets[c] == before[c]);
            }
        }
    }
    buckets
}

/// Where a cluster's next centroid comes from.
#[derive(Debug, Clone, Copy)]
pub enum CentroidUpdate<P> {
    /// The mean of the cluster's bucket (the bucket is not empty).
    Mean,
    /// This point: an existing data point re-seeding an empty cluster, or,
    /// when there are no points at all, the cluster's current centroid.
    Point(P),
}

/// The update of an empty cluster given the random draw among the points:
/// the drawn point, or the cluster's current centroid when there was
/// nothing to draw from.
pub fn reseed_update<P: Copy>(draw: Option<P>, current: P) -> (r: CentroidUpdate<P>)
    ensures
        r == (match draw {
            Some(p) => CentroidUpdate::Point(p),
            None => CentroidUpdate::Point(current),
        }),
{
    match draw {
        Some(p) => CentroidUpdate::Point(p),
        None => CentroidUpdate::Point(current),
    }
}

/// Decide, cluster by cluster, where each new centroid comes from. A
/// non-empty cluster moves to the mean of its bucket; an empty one is
/// re-seeded to a random existing point (one draw from `rng` per empty
/// cluster, in cluster order), or keeps its centroid when there are no
/// points. The number of clusters never changes.
pub fn plan_centroid_updates<P: Copy>(
    buckets: &Vec<Vec<P>>,
    points: &Vec<P>,
    centroids: &Vec<P>,
    rng: &mut StdRng,
) -> (r: Vec<CentroidUpdate<P>>)
    requires
        buckets.len() == centroids.len(),
    ensures
        r.len() == buckets.len(),
        forall|c: int|
            0 <= c < r.len() ==> ((#[trigger] buckets[c]).len() > 0 <==> r[c] is Mean),
        forall|c: int|
            0 <= c < r.len() && (#[trigger] buckets[c]).len() == 0 && points.len() > 0 ==> (
            r[c] matches CentroidUpdate::Point(p) && points@.contains(p)),
        forall|c: int|
            0 <= c < r.len() && (#[trigger] buckets[c]).len() == 0 && points.len() == 0 ==> r[c]
                == CentroidUpdate::Point(centroids[c]),
{
    let k = buckets.len();
    let mut plan: Vec<CentroidUpdate<P>> = Vec::new();
    for ci in 0..k
        invariant
            k == buckets.len(),
            buckets.len() == centroids.len(),
            plan.len() == ci,
            forall|c: int| 0 <= c < ci ==> ((#[trigger] buckets[c]).len() > 0 <==> plan[c] is Mean),
            forall|c: int|
                0 <= c < ci && (#[trigger] buckets[c]).len() == 0 && points.len() > 0 ==> (
                plan[c] matches CentroidUpdate::Point(p) && points@.contains(p)),
            forall|c: int|
                0 <= c < ci && (#[trigger] buckets[c]).len() == 0 && points.len() == 0
                    ==> plan[c] == CentroidUpdate::Point(centroids[c]),
    {
        if buckets[ci].len() > 0 {
            plan.push(CentroidUpdate::Mean);
        } else {
            let draw = choose_from(points.as_slice(), rng);
            plan.push(reseed_update(draw, centroids[ci]));
        }
    }
    plan
}

/// The largest of `start` and the keys.
pub open spec fn max_key(start: u32, keys: Seq<u32>) -> u32
    decreases keys.len(),
{
    if keys.len() == 0 {
        start
    } else {
        let m = max_key(start, keys.drop_last());
        if keys.last() > m {
            keys.last()
        } else {
            m
        }
    }
}

/// "Converged" means no centroid moved more than the threshold: the
/// largest shift is within the threshold exactly when the floor and every
/// shift are.
pub proof fn converged_iff_all_shifts_within(floor_key: u32, shift_keys: Seq<u32>, threshold_key: u32)
    ensures
        max_key(floor_key, shift_keys) <= threshold_key <==> (floor_key <= threshold_key
            && forall|i: int| 0 <= i < shift_keys.len() ==> #[trigger] shift_keys[i] <= threshold_key),
    decreases shift_keys.len(),
{
    if shift_keys.len() > 0 {
        let init = shift_keys.drop_last();
        converged_iff_all_shifts_within(floor_key, init, threshold_key);
        assert forall|i: int| 0 <= i < init.len() implies init[i] == shift_keys[i] by {}
        if max_key(floor_key, shift_keys) <= threshold_key {
            assert forall|i: int| 0 <= i < shift_keys.len() implies #[trigger] shift_keys[i]
                <= threshold_key by {
                if i < init.len() {
                    assert(init[i] == shift_keys[i]);
                }
            }
        }
    }
}

/// Install the new centroids, count the iteration, and decide convergence:
/// the run has converged when the largest shift (starting from
/// `floor_key`, the key of a zero shift) is at most `threshold_key`.
pub fn finish_step<P>(
    state: &mut KMeansState<P>,
    new_centroids: Vec<P>,
    shift_keys: &Vec<u32>,
    floor_key: u32,
    threshold_key: u32,
) -> (r: StepOutcome)
    requires
        new_centroids.len() == old(state).centroids.len(),
        old(state).iteration < usize::MAX,
    ensures
        final(state).centroids == new_centroids,
        final(state).points == old(state).points,
        final(state).assignments == old(state).assignments,
        final(state).iteration == old(state).iteration + 1,
        r == (if max_key(floor_key, shift_keys@) <= threshold_key {
            StepOutcome::Converged
        } else {
            StepOutcome::Moved
        }),
        old(state).wf() ==> final(state).wf(),
{
    let mut max_shift: u32 = floor_key;
    let n = shift_keys.len();
    for i in 0..n
        invariant
            n == shift_keys.len(),
            max_shift == max_key(floor_key, shift_keys@.subrange(0, i as int)),
    {
        assert(shift_keys@.subrange(0, (i + 1) as int).drop_last() =~= shift_keys@.subrange(
            0,
            i as int,
        ));
        let s = shift_keys[i];
        if s > max_shift {
            max_shift = s;
        }
    }
    assert(shift_keys@.subrange(0, n as int) =~= shift_keys@);
    state.centroids = new_centroids;
    state.iteration = state.iteration + 1;
    if max_shift <= threshold_key {
        StepOutcome::Converged
    } else {
        StepOutcome::Moved
    }
}

} // verus!
