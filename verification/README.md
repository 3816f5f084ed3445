# bonsaimq

A message and job queue kept in a BonsaiDB database. Jobs are spawned as
messages, a background runner picks up due messages, runs the registered job
functions, retries them with a fixed or exponential back-off, and removes them
once they complete.

## Layout

- `src/` is the verified library (Verus). It holds the queue's records and
  rules, each with a contract:
  - `duration.rs`: spans of time in nanoseconds with saturating arithmetic;
  - `retry.rs`: the retry timing and the laws of the back-off;
  - `queue.rs`: the message records, the update of a message before each
    execution and while it runs, and the execution budget;
  - `views.rs`: the two database views (due messages, latest ordered message)
    and the laws of their reductions;
  - `spawn.rs`: the job builder and the records a new job is stored as;
  - `job.rs`: a running job's input payloads and its checkpoints;
  - `runner.rs`: the decisions of the runner's loop;
  - `error.rs`: the error type and which errors are retried.
- `app/` is the async crate around it: the BonsaiDB schema and collections,
  the job runner, spawning, completion, checkpoints and keep-alive on the
  database, the job registry macro, and the error type with the standard error
  traits.
- `tests/` exercises the library on concrete values.
