# enki

The window-management core of the enki Wayland compositor, verified with Verus.

Windows live in the cells of an unbounded grid; a camera shows a rectangle of
cells on the output, and a modal keyboard mode moves the camera, moves a cell
cursor and carries windows between cells.

- `src/math.rs`: `IVec2`, the integer vector type, with its operators,
  distances and text forms.
- `src/layout.rs`: `Grid`, the windows by cell, with the breadth-first search
  for the nearest empty cell.
- `src/state/`: the camera, the key bindings (as decisions from a key to a new
  layout and the work the compositor does next), the viewport layout and the
  backend's small decisions.
- `src/cursor.rs`: reading a cursor theme file, choosing the cursor image and
  its animation frame.
- `src/command.rs`: the programs the compositor starts.
- `app/`: the compositor itself on smithay: event loop, input, rendering and
  the theme and settings it reads.
