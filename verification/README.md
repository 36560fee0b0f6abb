# pq_sys

Queues of database operations, their dispatch onto PostgreSQL connections, the
decisions those connections take on what libpq reports, and the reading of query
results, verified with Verus.

- `src/` is the verified library:
  - `decimal` writes integers in base ten and reads them back as std's `FromStr` does;
  - `op`, `op_base`, `opdb` are the operations and the bounded FIFO queue `OpMgmt`;
  - `op_queue` spreads operations over connections by hash, so that operations
    with one hash are queued on one connection in their order;
  - `pq_conn` is a non-blocking connection (escape buffer, request queue whose
    first operation runs, connect and send steps);
  - `conn` is a blocking connection;
  - `pq_result` is a query result as plain values and its typed getters;
  - `report` renders a result line by line;
  - `signal` is a signal of any kind (`SigHandler`) with receivers that connect,
    receive and disconnect, and `MySig` one kind of it;
  - `hello` is a small greeter with a default.
- `app/` holds what the verifier does not take: the libpq calls (`pg.rs`,
  `bindings.rs`), the tokio echo server (`main.rs`), the TOML configuration layout,
  and the closure-carrying `DbRespData`.
- `tests/` runs the library on concrete values.
