//! The discrete side of k-means: run state, nearest-centroid assignment
//! over ordered distance keys, per-cluster bucketing, re-seeding of empty
//! clusters and the convergence decision.
//!
//! Empty cluster strategy: when a cluster ends up with no assigned points,
//! its centroid is re-seeded to a randomly chosen existing data point. This
//! keeps `k` stable and avoids centroids computed from no points at all.

pub mod algorithm;
pub mod distance;
pub mod state;

pub use algorithm::{
    assign_by_keys, bucket_points, finish_step, nearest_index, nearest_within, plan_centroid_updates, reseed_update,
    CentroidUpdate, StepOutcome,
};
pub use distance::Euclidean;
pub use state::KMeansState;
