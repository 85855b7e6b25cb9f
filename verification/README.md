# dirty

A toolkit for games and other interactive programs, with its logic
written in Verus and proved against its contracts.

- `src/` is the library: HTTP requests, task scheduling, input and event
  handling, drawing state and batching, mesh and index layouts. Every
  function there is verified against its contract, except four small
  wrappers that call the `url` and `httparse` crates and the standard
  library's path functions; their contracts are trusted and say what
  they claim of those calls.
- `app/` is the thin layer that talks to the outside world: files, sockets
  and TLS, threads, and the graphics driver.
- `tests/` runs the library on concrete values.
