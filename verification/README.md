# winghost

The verified core of the WinGhost terminal: terminal dimensions and render
snapshots, key presses as VT byte sequences, paste encoding,
pane sizing and status, and the tab/pane workspace with its invariants.

- `src/` — the library, verified with Verus (`terminal`, `snapshot`, `theme`,
  `platform`, `keys`, `pane`, `workspace`).
- `tests/` — tests of the library.
- `app/` — the egui window around the library: configuration file I/O,
  floating-point layout and drawing.
