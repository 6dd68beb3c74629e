use clusterlab::kmeans::{
    assign_by_keys, bucket_points, finish_step, nearest_index, nearest_within, plan_centroid_updates, reseed_update,
    CentroidUpdate, Euclidean, KMeansState, StepOutcome,
};
use rand::{rngs::StdRng, SeedableRng};

#[test]
fn state_2d_initial_assignments_match_points() {
    let pts = vec![(1.0f32, 2.0f32), (3.0, 4.0)];
    let cs = vec![(0.0f32, 0.0f32)];
    let s = KMeansState::new(pts, cs);
    assert_eq!(s.assignments.len(), 2);
    assert_eq!(s.k(), 1);
    assert_eq!(s.iteration, 0);
}

#[test]
fn state_3d_initial_assignments_match_points() {
    let pts = vec![(1.0f32, 2.0f32, 3.0f32)];
    let cs = vec![(0.0f32, 0.0f32, 0.0f32), (1.0, 1.0, 1.0)];
    let s = KMeansState::new(pts, cs);
    assert_eq!(s.assignments.len(), 1);
    assert_eq!(s.k(), 2);
}

#[test]
fn nearest_index_first_minimum() {
    assert_eq!(nearest_index(&vec![]), None);
    assert_eq!(nearest_index(&vec![7]), Some(0));
    assert_eq!(nearest_index(&vec![5, 3, 9, 3]), Some(1));
    assert_eq!(nearest_index(&vec![2, 2, 2]), Some(0));
    assert_eq!(nearest_index(&vec![9, 8, 7]), Some(2));
}

#[test]
fn assign_by_keys_picks_nearest() {
    let mut s = KMeansState::new(vec![0u8, 1u8], vec![10u8, 20u8]);
    assign_by_keys(&mut s, &vec![vec![1, 50], vec![50, 4]]);
    assert_eq!(s.assignments, vec![0, 1]);
    assign_by_keys(&mut s, &vec![vec![6, 6], vec![9, 8]]);
    assert_eq!(s.assignments, vec![0, 1]);
    assert_eq!(s.iteration, 0);
}

#[test]
fn bucket_points_keeps_order() {
    let pts = vec!['a', 'b', 'c', 'd', 'e'];
    let buckets = bucket_points(&pts, &vec![1, 0, 1, 2, 0], 4);
    assert_eq!(buckets, vec![vec!['b', 'e'], vec!['a', 'c'], vec!['d'], vec![]]);
}

#[test]
fn empty_cluster_is_reseeded_to_an_existing_point() {
    let pts = vec![10u32, 11, 12];
    let centroids = vec![10u32, 999];
    let buckets = bucket_points(&pts, &vec![0, 0, 0], 2);
    let mut rng = StdRng::seed_from_u64(42);
    let plan = plan_centroid_updates(&buckets, &pts, &centroids, &mut rng);
    assert_eq!(plan.len(), 2);
    assert!(matches!(plan[0], CentroidUpdate::Mean));
    match plan[1] {
        CentroidUpdate::Point(p) => assert!(pts.contains(&p), "re-seeded to {p}"),
        CentroidUpdate::Mean => panic!("empty cluster cannot take a mean"),
    }
}

#[test]
fn empty_cluster_without_points_keeps_centroid() {
    let pts: Vec<u32> = vec![];
    let centroids = vec![7u32, 8];
    let buckets = bucket_points(&pts, &vec![], 2);
    let mut rng = StdRng::seed_from_u64(0);
    let plan = plan_centroid_updates(&buckets, &pts, &centroids, &mut rng);
    assert!(matches!(plan[0], CentroidUpdate::Point(7)));
    assert!(matches!(plan[1], CentroidUpdate::Point(8)));
}

#[test]
fn reseeding_is_deterministic_given_seed() {
    let pts: Vec<u32> = (0..50).collect();
    let centroids = vec![0u32; 6];
    let buckets = bucket_points(&pts, &vec![0; 50], 6);
    let mut a = StdRng::seed_from_u64(123);
    let mut b = StdRng::seed_from_u64(123);
    let pa: Vec<String> = plan_centroid_updates(&buckets, &pts, &centroids, &mut a)
        .iter()
        .map(|u| format!("{u:?}"))
        .collect();
    let pb: Vec<String> = plan_centroid_updates(&buckets, &pts, &centroids, &mut b)
        .iter()
        .map(|u| format!("{u:?}"))
        .collect();
    assert_eq!(pa, pb);
}

#[test]
fn finish_step_counts_iterations_and_decides_convergence() {
    let mut s = KMeansState::new(vec![1u8, 2], vec![0u8, 0]);
    assert_eq!(s.iteration, 0);
    let out = finish_step(&mut s, vec![3, 4], &vec![5, 9], 0, 8);
    assert_eq!(out, StepOutcome::Moved);
    assert_eq!(s.centroids, vec![3, 4]);
    assert_eq!(s.iteration, 1);
    let out = finish_step(&mut s, vec![3, 4], &vec![5, 8], 0, 8);
    assert_eq!(out, StepOutcome::Converged);
    assert_eq!(s.iteration, 2);
    // No shifts at all: converged when the floor is within the threshold.
    assert_eq!(finish_step(&mut s, vec![3, 4], &vec![], 2, 1), StepOutcome::Moved);
    assert_eq!(finish_step(&mut s, vec![3, 4], &vec![], 1, 1), StepOutcome::Converged);
}

#[test]
fn euclidean_is_a_unit_marker() {
    let e = Euclidean::default();
    let f = e;
    assert_eq!(format!("{f:?}"), "Euclidean");
}

#[test]
fn nearest_within_respects_limit() {
    assert_eq!(nearest_within(&vec![], 100), None);
    assert_eq!(nearest_within(&vec![40, 30, 30], 30), Some(1));
    assert_eq!(nearest_within(&vec![40, 31, 35], 30), None);
    assert_eq!(nearest_within(&vec![5], 5), Some(0));
}

#[test]
fn reseed_update_takes_draw_or_keeps_centroid() {
    assert!(matches!(reseed_update(Some(4u8), 9), CentroidUpdate::Point(4)));
    assert!(matches!(reseed_update(None, 9u8), CentroidUpdate::Point(9)));
}

#[test]
fn buckets_hold_every_point_once() {
    let pts: Vec<u32> = (0..37).collect();
    let asg: Vec<usize> = (0..37).map(|i| (i * 7 + 3) % 5).collect();
    let buckets = bucket_points(&pts, &asg, 5);
    let total: usize = buckets.iter().map(|b| b.len()).sum();
    assert_eq!(total, 37);
    let mut seen: Vec<u32> = buckets.concat();
    seen.sort();
    assert_eq!(seen, pts);
    for (c, b) in buckets.iter().enumerate() {
        for p in b {
            assert_eq!(asg[*p as usize], c);
        }
    }
}

#[test]
fn add_and_remove_points_keep_assignments_aligned() {
    let mut s = KMeansState::new(vec![1u8, 2, 3], vec![0u8, 9]);
    s.add_point(4, 1);
    assert_eq!(s.points, vec![1, 2, 3, 4]);
    assert_eq!(s.assignments, vec![0, 0, 0, 1]);
    s.remove_point(1);
    assert_eq!(s.points, vec![1, 3, 4]);
    assert_eq!(s.assignments, vec![0, 0, 1]);
    s.remove_point(2);
    assert_eq!(s.points, vec![1, 3]);
    assert_eq!(s.assignments, vec![0, 0]);
}

#[test]
fn replace_points_resets_assignments_and_iteration() {
    let mut s = KMeansState::new(vec![1u8, 2], vec![0u8]);
    s.assignments = vec![0, 0];
    s.iteration = 7;
    s.replace_points(vec![5, 6, 7]);
    assert_eq!(s.points, vec![5, 6, 7]);
    assert_eq!(s.assignments, vec![0, 0, 0]);
    assert_eq!(s.iteration, 0);
    assert_eq!(s.centroids, vec![0]);
    s.replace_points(Vec::new());
    assert!(s.points.is_empty());
    assert!(s.assignments.is_empty());
}

#[test]
fn place_centroid_overwrites_or_grows_to_k() {
    let mut s = KMeansState::new(vec![1u8], vec![10u8, 20, 30]);
    s.place_centroid(1, 3, 99);
    assert_eq!(s.centroids, vec![10, 99, 30]);
    let mut t = KMeansState::new(vec![1u8], vec![10u8]);
    t.place_centroid(2, 4, 7);
    assert_eq!(t.centroids, vec![10, 7, 7, 7]);
}
