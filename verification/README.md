# cda_runtime_update

Runtime reload coordination for a classic diagnostic adapter, verified with Verus.

- `src/` is the verified library: the reload contexts and their single-use
  component slots (`updateable`), the priority-ordered registry of reloadable
  components (`registry`), the step-by-step notification of those components
  that stops at the first failure (`notify`), the decisions each reloadable
  component takes on a reload (`reloadables`), and the communication
  lifecycle state (`lifecycle`).
- `app/` holds the asynchronous side: the `Updateable` trait and its
  implementations, the loop that drives a notification, the reloader plugin
  and the mutex-protected lifecycle state store.
- `tests/` exercises the library.
