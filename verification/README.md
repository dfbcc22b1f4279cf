# backend

The server of a reaction-timer game: the player starts a round, the server
draws a random target time, and the player tries to stop the timer as close
to the target as possible. The client reports its own measurement; the server
accepts it when it lies within a tolerance of its own measurement and uses
its own otherwise.

Layout:

- `src/` is the verified library.
  - `clock.rs`: durations and instants of `std::time`, through whole
    milliseconds.
  - `error.rs`: the game's errors and their messages.
  - `game/`: identifiers and times, configuration and its builder, the state
    machine (Idle, Running, Completed), sessions and the session factory.
  - `validation/`: the check of a client's time against the server's.
  - `storage/`: the session store's interface and its in-memory store.
  - `messages/`: the protocol, the message handler and the decisions of a
    client connection.
  - `laws.rs`: properties that span several functions or calls.
- `tests/`: tests of the library on concrete values.
- `app/`: the server program (axum, tokio): WebSocket and HTTP routes, JSON
  encoding, the timer stream and the lock around the handler.
