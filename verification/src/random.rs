//! The random choices the library makes, drawn from `rand`'s standard
//! generator.

use rand::rngs::StdRng;
use rand::seq::SliceRandom;
use vstd::prelude::*;

verus! {

/// `rand`'s standard generator, carried through the library opaquely.
#[verifier::external_type_specification]
#[verifier::external_body]
pub struct ExStdRng(StdRng);

/// Calls `rand::seq::SliceRandom::choose` on `items`. In rand's source
/// the call returns `None` exactly when the slice is empty, and otherwise
/// a reference to one of its elements, picked by one draw from `rng`.
/// Which element comes back depends on the generator's state and is not
/// stated.
#[verifier::external_body]
pub(crate) fn choose_from<P: Copy>(items: &[P], rng: &mut StdRng) -> (r: Option<P>)
    ensures
        r is None <==> items@.len() == 0,
        r matches Some(p) ==> items@.contains(p),
{
    items.choose(rng).copied()
}

} // verus!
