# rhei_tokio_rusqlite

An async handle to a SQLite connection that runs every database call on one
dedicated OS thread.

- `src/` (verified with Verus): the error type (`error.rs`), the worker's state
  machine that decides what the background thread does with each message
  (`worker.rs`), and the mapping from what a caller heard back over the channels
  to the result it returns (`outcome.rs`), with the laws that tie them together
  (calls received before a close run in order, nothing runs after it, and a call
  or close after the connection stopped returns `ConnectionClosed`).
- `app/`: the async `Connection` handle, the thread spawn, the crossbeam request
  channel, the tokio reply channels, and the loop that performs the worker's steps.
