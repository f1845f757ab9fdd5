# chorus

A client library for Discord-compatible chat servers, verified with Verus.

- `src/` is the verified library: the gateway protocol's decisions
  (`gateway`) and the events a connection updates (`gateway::events`),
  observable events (`observer`), snowflake identifiers
  (`snowflake`) and the reaction endpoints of the HTTP API
  (`api::channels::reactions`).
- `app/` performs the I/O those decisions name: the WebSocket connection and
  its reader and heartbeat tasks, JSON encoding, observer notification, and
  HTTP requests.
- `tests/` exercises the library on concrete values.
