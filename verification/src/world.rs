//! World-space constants and dataset selection.

use vstd::prelude::*;

verus! {

/// World-space bounds for 2D mode: (min_x, min_y, max_x, max_y).
/// The camera fits this rectangle to the screen at zoom = 1.
pub const WORLD_BOUNDS: (i32, i32, i32, i32) = (0i32, 0i32, 1000i32, 700i32);

/// Half-side of the centered cube used for 3D mode. The 3D scene spans
/// `-HALF_EXTENT..=HALF_EXTENT` on each axis.
pub const HALF_EXTENT: i32 = 5i32;

/// The 3D bounds expected by the geometry generators:
/// `(min_x, min_y, min_z, max_x, max_y, max_z)`, the centered cube.
pub fn bounds_3d() -> (r: (i32, i32, i32, i32, i32, i32))
    ensures
        r.0 == -HALF_EXTENT && r.1 == -HALF_EXTENT && r.2 == -HALF_EXTENT,
        r.3 == HALF_EXTENT && r.4 == HALF_EXTENT && r.5 == HALF_EXTENT,
{
    (-HALF_EXTENT, -HALF_EXTENT, -HALF_EXTENT, HALF_EXTENT, HALF_EXTENT, HALF_EXTENT)
}

/// Dataset choices the user can pick from the menu. Works in 2D and 3D.
#[derive(Debug, Clone, Copy, PartialEq, Eq, Structural)]
pub enum DatasetChoice {
    BlobsRandom,
    Moons,
    Iris,
}

/// The menu label of each dataset.
pub open spec fn label_of(choice: DatasetChoice) -> Seq<char> {
    match choice {
        DatasetChoice::BlobsRandom => "Random blobs"@,
        DatasetChoice::Moons => "Two moons"@,
        DatasetChoice::Iris => "Iris"@,
    }
}

impl DatasetChoice {
    /// The label shown for this dataset in the menu.
    pub fn label(self) -> (r: &'static str)
        ensures
            r@ == label_of(self),
    {
        match self {
            DatasetChoice::BlobsRandom => "Random blobs",
            DatasetChoice::Moons => "Two moons",
            DatasetChoice::Iris => "Iris",
        }
    }
}

/// The three labels are pairwise distinct, so the menu never shows two
/// datasets under one name.
pub proof fn labels_are_distinct(a: DatasetChoice, b: DatasetChoice)
    requires
        a != b,
    ensures
        label_of(a) != label_of(b),
{
    reveal_strlit("Random blobs");
    reveal_strlit("Two moons");
    reveal_strlit("Iris");
    assert(label_of(DatasetChoice::BlobsRandom).len() == 12);
    assert(label_of(DatasetChoice::Moons).len() == 9);
    assert(label_of(DatasetChoice::Iris).len() == 4);
}

} // verus!
