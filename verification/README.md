# growforge

The logic behind growforge's viewer and editor, and behind the topology checks it
runs on a density field, as a Verus library: every function of `src/` is verified
against the contract it states. Two contracts are taken on trust, because what they
speak of is not in `src/`: `parallel::ask_each`, which asks a question of every
number of a range in parallel by way of rayon, and that of `char::is_whitespace` in
`fields`.

- `voids`, `void_laws`, `connect`, `grid`, `tally`: enclosed cavities and separate
  bodies of a field, and what filling them does.
- `mesh`, `tessellate`, `spindle`, `indicators`, `shapes`, `setup`: closed triangle
  meshes of the shapes, regions and load indicators a scene shows. A vertex is a
  name; the caller places it.
- `scene`, `shading`, `gpu`, `snapshot`, `session`: layers and their switches, what
  is drawn in which order, the slot between a run and its window, and how a run ends.
- `config`, `sameness`, `editor`, `forms`, `objects`, `rows`, `panel`, `view_panel`,
  `fields`: the document under edit, its undo history, and the rows of the panel.
- `worker`: the editor's background runs, one writer at a time.

The library neither draws nor waits, and does no floating point arithmetic: a
measured value is carried as the bits it has, and compared by them. `app/` is the
ordinary Rust around it - the device and its renderer, the threads and locks, the
egui panels, and the arithmetic.

Public proof functions named `law_..` state what holds across functions.
