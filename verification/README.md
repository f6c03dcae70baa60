# Stroke

A single-document ink editor: draw strokes, undo and redo them, and save or
open the document as JSON through the browser's File System Access API.

- `src/` is the verified library:
  - `document` — the document model, schema check on load, id allocation;
  - `history` — session-local undo/redo over committed strokes;
  - `capture` — turning pointer events into committed strokes;
  - `persist` — the Save / Save As / Open decisions and the active file;
  - `editor` — the editing session: document, history, capture, active
    file, dirty flag and the error shown;
  - `render` — the renderer's state and clearing the live canvas;
  - `timestamp`, `text` — UTC instants and their calendar dates (via
    `chrono`) and small text helpers.
- `app/` is the browser program around it: DOM and pointer wiring, drawing
  with binary64 coordinates, JSON (de)serialization with `serde_json`, and the
  asynchronous file I/O.
- `tests/` exercises the library.

Coordinates, widths and times are binary64 numbers on disk; the library holds
them by their bit patterns and never computes on them.
