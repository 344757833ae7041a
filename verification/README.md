# wsproxy

A relay between WebSocket clients and an upstream UDP service.

- `src/` is the verified library (Verus): address models and parsing
  (`net`), host fields (`deserializers`), configuration resolution
  (`config`), errors (`error`), the signals and WebSocket messages with the
  big-endian timestamp encoding (`signal`), UDP client state (`client`), and
  the relay's decisions on each event (`websocket`). `outside` declares the
  outside error types the library carries.
- `app/` is the server program: configuration file reading (TOML, serde),
  sockets, WebSocket streams, tasks and channels. It performs the decisions
  the library takes.
- `tests/` exercises the library on concrete values.
