# bastet_workstation

The state and the rules of a local workstation daemon, verified with Verus.

The daemon keeps one durable state: catalogs of identities and of an office,
executions of workflow graphs with their attempts and outputs, approvals and
single-use credential grants, launches that wait for an approval, a journal and
checkpoints. Each operation is one transaction. It either takes effect as its
contract says, or it is refused for the reason that its contract gives and leaves
the state as it was.

## Layout

- `src/store.rs` holds the state and its journal. The operations stand beside it,
  by subject: `lifecycle`, `recovery`, `catalogs`, `deliverables`, `executions`,
  `begin`, `finish`, `runs`, `approvals`, `grants`, `staging`, `cancel`, `expiry`,
  `dispatch`, `broker`.
- `src/consistency.rs` says what holds of the state at all times and proves that
  every operation keeps it. `src/laws.rs` holds what relates several operations.
- `src/policy.rs` says what the policies of a role and of a project leave to a
  launch, when its plan is made and when it is to go ahead.
- `src/executor.rs`, `src/registry.rs`, `src/ipc.rs`, `src/sandbox.rs` and
  `src/native_credentials.rs` decide what the daemon does towards providers,
  callers, the operating system and its credential store.
- `app/` is the daemon around the library: the database, the HTTP interface, the
  sockets and pipes, the worker threads and the adapters.

Rules of graphs, catalogs and approvals that belong to `bastet_core` are asked in
`app/`. The library takes what they find as an argument and is verified for every
answer.

## What is trusted

Small wrappers, each with a contract that is believed: identifiers
(`src/uid.rs`), JSON strings (`src/json.rs`), SHA-256 (`src/digest.rs`) and the
erasing of secrets (`src/native_credentials.rs`).
