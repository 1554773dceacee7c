# skip_graph

A skip graph node, written and verified in Verus.

- `src/` is the verified library. It performs no input or output: a node says, as an
  `Effect`, what it wants sent and which waiting caller it wants resumed.
  - `model`: identifiers, membership vectors, identities and message payloads.
  - `lookup`: the lookup table and the link and relink decisions on it.
  - `node`: the local search, the handling of each event, the requests that a node sends
    on its own account, and the laws of nodes that exchange messages.
  - `network`: the messages and the interfaces through which they travel.
  - `context`: contexts that can be cancelled and can expire.
  - `observability`: bounded labels and the traits of metric backends.
- `app/` drives the library with Tokio: locks, timers, reply channels, a transport, logging.
- `tests/` runs the library.
