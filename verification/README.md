# pump editor logic

The interaction logic of the pump gain-shaper's curve editor, written in Verus
and proved against its contracts. Curve times and gains are fixed-point
integers: `curve::UNIT` (1,000,000) stands for one cycle and for unity gain.

Modules under `src/`:

- `curve`: the editable curve (normalized form, insert/delete/update of nodes,
  interactive nodes near the display seam, segment sampling).
- `drag`: node drags with gain/time locks, push-through, group drags, and
  segment drags (tension bends and moves of a segment's two nodes).
- `paint`: stroke recording and the reconstruction of a painted stroke into
  curve nodes and tensions.
- `editor`: the editor state (the active sound's curve, phase offset and deck
  values, the other sound, the history) and the reducer for curve messages,
  with undo/redo of every recorded edit.
- `session`: the whole editor state and the reducer for every editor
  message, built from the modules below, with the host ends it edits
  (knobs, bypass, phase offset, and timing mode, sync division and sound).
- `deck`: knob edits, the timing mode, the sync division and the A/B sound
  actions applied to the editor state, and the `u`/`U` shortcuts.
- `canvas`: what the curve canvas reports for pointer, key and focus input,
  once its geometry has resolved the pointer position.
- `history`: the bounded undo/redo stacks and the `u`/`U` shortcuts.
- `knob`: host parameter gestures of the deck knobs and the bypass switch,
  and `HostSink`, a host end that keeps the log of every call it was handed;
  the reducers state that log exactly.
- `numeric_entry`: typed value entry under the knobs.
- `chrome`, `header`, `slots`: timing mode and overlays, the A/B sound
  buttons, and the stored-curve slots with how each slot card is drawn.
- `gallery`, `frame`, `screen`: component-state gallery layout, captured-frame
  pixel checks, and screen geometry used by screenshot checks.

Tests under `tests/` run the compiled library on concrete inputs.

Not in this library: drawing and layout of the widgets and the surface
(floating-point geometry on the GUI toolkit), the pixel hit-testing that
turns pointer positions into `canvas::CanvasPoint` values, the geometry of
the Command-drag that moves a segment's two nodes (the editor runs the drag
and its history; the moved curve comes from a function passed in), the
beat-grid snap with swing (passed in as a function), the numeric
parsing of typed values, the Depth/Floor gain mapping and the audio timing,
and the screenshot capture and window automation.
