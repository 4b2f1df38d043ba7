# inote

A write-only Instagram client for the terminal: publish a note, read and
answer direct messages.

- `src/` is the verified library (Verus): the requests the client sends
  (`api`), how JSON replies are read (`json`, `api`), the saved session
  (`config`), the screens as a state machine driven by keys and by finished
  background work (`tui`), what the screens show (`render`), text helpers
  (`text`), and properties across them (`properties`).
- `app/` is the program around it: HTTP through reqwest, the session file,
  the terminal event loop, drawing with ratatui and the note editor of
  tui-textarea.
- `tests/` exercises the library on concrete values.
