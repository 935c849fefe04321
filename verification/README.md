# workflow_core

Utilities for asynchronous Rust programs, with their logic verified by Verus.

- `src/` is the verified library: one-shot completion slots (`sync`,
  `channel::oneshot`), the lookup queue that groups concurrent requests for
  the same key (`lookup`), the decisions behind a task's `terminate` and
  `wait` (`task`), trigger pairs (`bitrigger`) and enum helpers (`enums`).
  Values of the outside crates `manual_future`, `async_std` and `triggered`
  pass through it as opaque values.
- `app/` holds the asynchronous, shareable handles around those values
  (locking, awaiting, sending, spawning), the integer-to-enum macros and the
  raw buffer views.
- `tests/` exercises the library, including the outside crates it calls.
