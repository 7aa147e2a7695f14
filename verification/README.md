# async_task

Task abstraction for building executors, verified with Verus.

A task is a future on the heap with some state attached to it. Everything that
the threads which poll, wake, await and cancel a task have to agree upon is one
machine word: eight flags and a reference count. `src/` holds the decisions on
that word, the operations that carry them out atomically, a model of a task and
all its users, and the proofs that the operations are the steps of that model.

- `src/`: the verified library.
- `tests/`: its tests.
- `app/`: the memory of tasks, their futures and their wakers, around the
  library: `spawn`, `Runnable`, `Task`.

What is trusted stands in `src/shared.rs`: the operations of
`portable_atomic::AtomicUsize` and of `core::cell::Cell`, and
`core::task::Waker::will_wake`.
