# clusterlab

An interactive k-means visualizer (2D and 3D, macroquad), split in two:

- `src/` is the verified library, checked by Verus. It holds the discrete
  decisions of the visualizer: nearest-centroid assignment over ordered
  distance keys, per-cluster bucketing, re-seeding of empty clusters,
  the convergence decision, the run-control state machine behind the
  control panel, the panel's tab logic, the CSV reader for the bundled
  Iris data, the pairing of centroids for the 3D bisector planes, and the
  xorshift byte source used on the web.
- `app/` is the program around it: window, input, drawing, sampling of
  random datasets, the floating-point geometry (means, distances, PCA,
  Voronoi cells, animation), all of which consult the library for every
  decision.
- `tests/` exercises the library, including full k-means runs composed
  from its phases.

Distances never enter the library as floats: the program hands it `u32`
keys whose order is the order of the distances, so "nearest" and
"converged" are decided, and proved, on integers.
