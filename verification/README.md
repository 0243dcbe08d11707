# futures-glib

Futures on top of the glib main loop.

- `src/` is the verified library (Verus): the decisions of the runtime.
  - `rt`: glib's initialisation state as one thread sees it, and what a use
    of glib from a thread is answered.
  - `io`: the conditions watched on a channel (`IoCondition`), how glib's
    status codes become results (`rc`); `io::state`: readiness of each
    direction of an I/O object and which task waits for it.
  - `future`: the executor's task table and its dispatch rounds. The
    indices come from a `slab::Slab`, behind trusted wrappers; since the name
    for what a slab holds cannot be generic, the slab holds for each task
    whether its future is in place, and the futures themselves sit in a
    `Vec` at the same index.
  - `error`: glib errors as plain values.
  - `utils`: durations in milliseconds; the crate root: a source's ready
    time, and `MyDrop`.
- `app/` holds what calls glib itself (main contexts, loops, sources,
  channels, timers), the executor around the task table, the TCP stream and
  the tokio-core bridge.
