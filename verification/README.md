# vindium

The logic of a small multiplayer game server, verified with Verus.

- `src/` is the library: the entity store (a map from group and key to
  entity, kept in a vector with unique keys), client sessions (registering a
  player, disconnecting, and deciding which packets a client is sent), the
  answer to packets read from a client, the per-tick work of the AI
  processors, tick pacing, and random entity ids. `src/laws.rs` holds the
  properties that relate these operations.
- `app/` is the server program around it: sockets, the broadcast channel,
  JSON encoding, and the floating-point transforms of entities.
- `tests/` runs the library on concrete values.
