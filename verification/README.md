# zakura

The logic of a peer-to-peer endpoint, verified with Verus: connection limits, the
control handshake, stream admission and framing, rate limits, legacy request and
response budgets, peer discovery, dialing, and header synchronisation.

## Layout

- `src/` is the verified library. It does no I/O: long-running tasks are state machines
  that take what happened and say what to do next.
  - `limits`, `rate`, `streams`, `wire`, `handshake`: what a connection may do and how its
    bytes are framed.
  - `connection`, `exchange`, `outbound`, `legacy_response`, `inventory`, `echo_status`:
    serving a connection and checking what peers answer.
  - `supervisor`, `dial`, `discovery`, `discovery_dial`, `bootstrap`, `node`, `endpoint`,
    `service_route`: who is connected, who is dialed and how peers are found.
  - `header_sync`: the queue of header ranges (`scheduler`, with its laws in
    `scheduler_laws`), the per-peer tasks (`routine` with its whole run in `run` and
    `run_laws`, and `pipe`), and the shared state they work for (`state`, `peer_state`).
  - `time`, `types`, `vec_map`, `random`, `error`, `sink`: what the others build on.
- `app/` runs the state machines on iroh and tokio.
- `tests/` runs the library on concrete values.

Properties that span several functions are the public proof functions named `law_*`.
The functions marked `external_body` are the only ones that are not proved: each makes
one call into byteorder, iroh, rand or tokio, and its doc comment says what is believed
of that call.
