//! Distance metrics. Currently only Euclidean; further metrics (Manhattan,
//! cosine) can slot in beside it.

use vstd::prelude::*;

verus! {

/// Euclidean distance. The metric itself is evaluated by the host, which
/// hands the library one ordered key per (point, centroid) pair.
#[derive(Debug, Default, Clone, Copy)]
pub struct Euclidean;

} // verus!
