//! Geometry support: the combinatorial side of the 3D bisector planes.

pub mod planes;

pub use planes::bisector_pairs;
