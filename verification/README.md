# Notiz

A small desktop app for plain text notes, with optional semantic search
through a Laya endpoint. Its logic is a library verified with Verus; the
windows, the tray, the global shortcuts, the SQLite store and the network
calls are a thin program around it.

## Layout

- `src/text.rs`: note titles and previews, trimming, case-insensitive search.
- `src/storage.rs`: notes and settings as stored, and the clock.
- `src/semantic.rs`: endpoint validation, the request sent to Laya, reading
  its answer, and the decisions of a search run.
- `src/probability.rs`: the match probability in an answer, read exactly
  from the decimal text of a JSON number.
- `src/tray.rs`, `src/shortcuts.rs`: tray menu, tray icon and global
  shortcut decisions.
- `src/model.rs`: the notebook as a mathematical state machine.
- `src/notebook.rs`: the executable notebook, proved to follow the model;
  operations that need the store return a request and are resumed with the
  store's reply.
- `src/laws.rs`: properties of the notebook as a whole (search, selection,
  saving, deletion, the editor window, semantic results).
- `tests/`: tests of the library.
- `app/`: the egui program: drawing, keyboard input, the tray, global
  shortcuts, the SQLx store and the Laya worker thread.

## Check

Verify the library with Verus, then run the tests.
