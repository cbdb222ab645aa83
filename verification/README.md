# communityvi

The verified core of a server on which a group of people watch a medium
together: they join a room, chat, and play, pause or skip the medium in step.

- `src/` is the library, written in Verus. Every function there carries a
  contract that Verus proves: the per-client broadcast buffer and its garbage
  collection, the numbering and retry state machines of a websocket
  connection, room admission with the welcome answer, the versioned medium
  state and its play and pause changes, heartbeats, transaction retries, the
  classification of database errors, host checks and request building of the
  test HTTP client, and
  the texts the server answers with. The few calls into other crates stand
  behind small trusted wrappers whose doc comments say what is assumed.
- `app/` is the program around it: command line, configuration, the websocket
  server and the loops that perform the I/O the library decides on.
- `tests/` runs the library on concrete values.
