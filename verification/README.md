# tako_ipc

A small request/response IPC library: CBOR envelopes in length-prefixed
frames over Unix domain sockets or Windows named pipes.

- `src/` is the verified core, checked by Verus: the envelopes and their
  validation (`protocol`), framing (`codec`), the public value types
  (`api`), and the decisions of the runtimes (`runtime`): the handler
  table, how a decoded request is answered, the request envelope and its
  deadline, how a response becomes a call's result, and what happens to the
  client's connection after an exchange. The clock reading, the random ids
  and the text of a path come from std and uuid through small trusted
  wrappers.
- `app/` is the asynchronous shell around it: tokio sockets and pipes
  (including telling end of stream from other read failures),
  serde/ciborium encoding of envelopes and user types, typed handlers,
  the `Server` and `Client` entry points, and logging through `tracing`.
- `tests/` exercises the core on concrete values.
