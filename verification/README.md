# doo

Capture a task the moment it crosses your mind: a tiny GNOME app with a
global Super+T shortcut, a quick-capture popup, a task list and a tray icon.

- `src/` is the verified library (Verus):
  - `db`: one SQLite connection and the record of every call made on it.
    Only its trusted methods, each the one rusqlite call it names, extend the
    record, each by what it handed over and what came back.
  - `storage`: the task store over `db`. Each operation's contract fixes the
    statements and parameters it hands to SQLite (over that record) and what
    it makes of the answers. What SQLite answers depends on the database
    file and is not claimed.
  - `table`: what the store's recorded calls mean for the `tasks` table, and
    laws over those calls, proved under the condition that SQLite carries
    them out as written with no other writer: a saved task is listed first,
    verbatim; a deleted task is gone and nothing else is.
  - `capture` (what Enter saves, with or without a pasted screenshot),
    `hotkey` (the shortcut's registration plan), `commands` (command-line
    routing), `tray` (the tray menu), `window` (what the list shows) and
    `text` (trimming and decimal rendering).
- `app/` is the GTK/libadwaita program around it: widgets, the clipboard,
  GNOME settings, the clock and the file system.
- `tests/` exercises the library.
