# sphere_plot

Verified building blocks of a library that places objects on a sphere and
plots them on a flat canvas.

- `src/` is the verified library: object identifiers (`object_id`), RGBA
  colours and their premultiplied form as the egui backend stores them
  (`color`), and the index logic of polygons: which vertices each arc joins
  and which of a list of distances is the nearest (`nearest`).
- `app/` holds the spherical geometry (angles, spherical coordinates,
  rotations and translations, projection onto the canvas, Bézier arcs) and
  the egui painter. All of it computes with floating-point numbers, and the
  painter does output, so none of it is verified; it calls the library for
  identifiers, colours and polygon indices.
- `tests/` exercises the library.
