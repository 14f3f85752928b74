# matrix_onebot

A bridge that runs a Matrix account as a OneBot 12 implementation. Matrix
room messages and membership changes become OneBot events. OneBot actions
(sending messages, user and friend lookups, version and status) are answered
through the Matrix client.

- `src/` is the library, verified with Verus. It holds the identifier handling
  (`ids`, `text`), the rows the event tables record and the OneBot events built
  from Matrix events (`events`, `table`), the routing decisions of the event
  handlers (`routing`), the checks, lookups and answers of the actions
  (`actions`), the retry policy for joining rooms (`retry`), and the
  configuration model with its defaults (`config`). The one call into the Matrix
  library that it makes, user id validation, stands behind a trusted wrapper in
  `ids`.
- `app/` is the program around it. It logs in to Matrix, registers the event
  handlers, runs the OneBot implementation, keeps the SQLite tables, and reads
  and writes the TOML configuration files.
- `tests/` runs the library on concrete values.
