# cube

A small container orchestrator, verified with Verus.

- `src/` is the verified library:
  - `task`: task states, the transitions the worker accepts, tasks and task events;
  - `container`: container configurations, Docker results, and the container jobs
    (run: pull, create, start, logs; stop: stop, remove) as a step function from
    the engine's answer to the next operation;
  - `worker`: the worker's queue and task store, and the task jobs that start or stop
    a task's container and record the outcome on the task;
  - `manager`, `node`, `scheduler`: the cluster's other parts;
  - `cli`: parsing of `KEY=VALUE` entries and the configuration of a run request;
  - `clock`: the system clock, read without panicking (a clock set before 1970 reads
    as a negative instant), and `chrono`'s text of an instant;
  - `ident`, `text`: the calls into `uuid` and `{:?}` formatting.
- `app/` is the command line: it talks to the Docker engine with `bollard`, answers
  the library's jobs with what the engine replied, and prints.
- `app/model.rs` holds copies of the task types with UUIDs, dates and `serde` derives.
- `tests/` exercises the library on concrete values.
