# sqlx-core (runtime layer)

`src/` is a Verus library: which runtime (Tokio, async-std or WASI) drives
each runtime operation, what an operation reports when none is available,
how a timeout decides each poll, how a duration becomes a WASI wait, the
address and failure message of the WASI TCP connection, and the defaults of
a connection backend. `app/` holds the asynchronous code that carries these
decisions out: futures, spawned tasks, sockets and panics.

Some of the crate's surroundings are not part of this tree: the SQLite
connection and its worker, the `TransactionManager` trait, the `Any*`
argument, row, statement and type-info types, and `Describe`. So the
transaction manager's `begin`, `commit`, `rollback` and `start_rollback`,
and the backend's `fetch_many`, `fetch_optional`, `prepare_with` and
`describe`, are not carried here. In `app/`, `spawn` asks for `Send`
futures, as async-std's `spawn` does, and `connect_tcp` reports errors as
`BackendError`.
