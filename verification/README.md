# bombay_entity

Entity lifecycle coordination for actor runtimes, written in Verus.

The library (`src/`) holds the decision logic, each function with a
contract that Verus proves:

- `topology` — declared state-machine topologies: validation, reachability,
  Mermaid rendering.
- `machine`, `decision` — composable machines and reducers that turn a state
  and an input into a next state and the effects to perform.
- `lifecycle` — the per-entity slot state machine (activation, dispatch
  reservations, draining, retirement), its effect batches, its declared
  lifecycle topology, and the laws it keeps (`lifecycle/laws.rs`).
- `executor` — the single-owner cores of serialized and linearized execution.
- `directory`, `runtime`, `protocol` — shard routing, identity allocation,
  effect interpretation and the completion/failure values of the runtime.

`app/` wraps those cores in locks, futures and thread-safe handles, and holds
copies of the error types that derive `std::error::Error`. `tests/` exercises
the library from outside.
