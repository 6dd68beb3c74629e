//! Run control: the decisions behind the control panel. The host owns the
//! point sets, centroid coordinates and animation timelines; this module
//! owns the flags and decides, for every user action and every finished
//! animation, what happens next.

pub mod controller;

pub use controller::{
    ControlState, RunMode, TickAction, DEFAULT_N_POINTS, MAX_ITERS_RUN_TO_CONVERGENCE,
    MAX_N_POINTS, MIN_N_POINTS,
};
