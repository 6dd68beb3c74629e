use clusterlab::world::{bounds_3d, DatasetChoice, HALF_EXTENT, WORLD_BOUNDS};

#[test]
fn world_bounds_2d_is_positive_quadrant() {
    let (x0, y0, x1, y1) = WORLD_BOUNDS;
    assert!(x0 < x1);
    assert!(y0 < y1);
}

#[test]
fn bounds_3d_is_symmetric() {
    let (a, b, c, d, e, f) = bounds_3d();
    assert_eq!(a, -d);
    assert_eq!(b, -e);
    assert_eq!(c, -f);
}

#[test]
fn bounds_3d_is_the_half_extent_cube() {
    assert_eq!(bounds_3d(), (-5, -5, -5, 5, 5, 5));
    assert_eq!(HALF_EXTENT, 5);
    assert_eq!(WORLD_BOUNDS, (0, 0, 1000, 700));
}

#[test]
fn dataset_choice_labels_are_distinct() {
    let labels = [
        DatasetChoice::BlobsRandom.label(),
        DatasetChoice::Moons.label(),
        DatasetChoice::Iris.label(),
    ];
    for i in 0..labels.len() {
        for j in (i + 1)..labels.len() {
            assert_ne!(labels[i], labels[j], "duplicate label");
        }
    }
}

#[test]
fn dataset_choice_labels_exact() {
    assert_eq!(DatasetChoice::BlobsRandom.label(), "Random blobs");
    assert_eq!(DatasetChoice::Moons.label(), "Two moons");
    assert_eq!(DatasetChoice::Iris.label(), "Iris");
}
