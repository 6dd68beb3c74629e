//! clusterlab: the discrete core of an interactive k-means visualizer.
//!
//! The library holds the parts of the visualizer that decide rather than
//! measure: which centroid each point belongs to (given an order on the
//! distances), how points are bucketed per cluster, when a cluster has to
//! be re-seeded, when a run has converged, the run-control state machine
//! behind the control panel, the CSV reader for the bundled dataset, the
//! panel's tab logic and the xorshift byte source used on the web.

pub mod world;
pub mod kmeans;
pub mod random;
pub mod app;
pub mod wasm_rand_shim;
pub mod panel;
pub mod geometry;
pub mod datasets;
