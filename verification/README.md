# trajectory_orchestration

Decisions of two services, verified with Verus and kept apart from the I/O around
them.

- The wiki-trajectory routes (`src/routes.rs`) and the reasoning behind a page write
  (`src/reasoning.rs`).
- The execution of attached functions over their input collections
  (`src/function_execution.rs`).

A route or a run is a sequence of steps: each step names a call to make and takes the
reply to the next step. `src/route_model.rs` and `src/execution_model.rs` say what the
steps are, `src/*_laws.rs` prove what holds of every sequence of them. `app/` performs
the calls: HTTP handlers and the worker's loop.
