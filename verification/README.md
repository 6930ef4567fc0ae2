# spectrum

The server of Spectrum, a real-time multiplayer browser game. Players connect over WebSockets,
introduce themselves, gather in game lobbies, confirm that they are ready, and play.

The crate is a Verus library with a thin executable around it.

- `src/` is the verified library:
  - `model`, `packet`: the protocol messages and the helpers that build and inspect them;
  - `game`: game lobbies (joining, the readiness check that starts a game), the game state that
    routes newcomers to lobbies, and game rooms;
  - `network`: which WebSocket frames reach the game, when a connection's reader stops, which
    endpoints a listener binds to, how accepting a connection ends;
  - `server`: how a client's first messages are answered, and when the tasks serving it stop;
  - `config`: the server's settings;
  - `tables`, `ids`: the outside collections (`dashmap`, `crossbeam-queue`) and game ids (`uuid`)
    the library relies on, each operation behind a small trusted wrapper with a contract.
- `app/` is the executable: logging, the configuration file, signals, sockets, the asynchronous
  tasks, and the protobuf encoding of the messages. It performs the I/O the library's decisions
  call for.
- `tests/` runs the library on concrete scenarios.
