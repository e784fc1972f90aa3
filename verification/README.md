# syndicode

The verified core of the Syndicode game: a terminal client and a game server
that elects a leader, initializes its database once and processes game ticks
on a fixed schedule.

- `src/` is the library, checked by Verus. The client side holds the screens
  and key handling, the request forms, the bounded response log and the
  service menu; the server side holds the leader loop and the one-time
  initialization as state machines, the rules of the account use cases, and
  the economy bootstrap's assignment of buildings to businesses. Contracts
  are stated over spec functions; the laws that span several calls are
  public proof functions next to the code they are about.
- `tests/` runs the library on concrete values.
- `app/` performs what the library decides: terminal input and drawing with
  `ratatui`, `crossterm` and `tui-textarea`, the `tokio` runtime of the leader
  loop, the Parquet building import and the random placement of businesses.
