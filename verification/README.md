# graphile_worker

The verified core of a job worker that keeps its jobs in PostgreSQL.

- `src/` holds the logic, proved with Verus: how a process divides its capacity over
  tasks (`quotas`), the claim waves that take jobs (`claim_coordinator`, `claim_one`),
  the statements and what their rows mean (`queries`, `actions`), the local queue of
  claimed jobs (`local_queue`), and what a worker does with them (`runner`).
- `app/` connects the logic with a database driver, an async runtime and hooks.
- `tests/` runs the compiled library.

Where work has to be done outside, the logic is a dialogue: a method takes what has
happened and returns what is to be done next.
