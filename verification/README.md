# tasker_core

The data models of a workflow orchestration system — tasks, workflow steps,
their state transitions, step dependency graphs, execution batches and
workers — with their rules proved correct by Verus.

## Layout

- `src/` — the verified library.
  - `json.rs` — a JSON document model with object lookup and insertion; a
    well-formed document (`json_well_formed`) has each object's members
    sorted by key, insertion keeps it so, and the library builds its
    documents well formed.
  - `text.rs` — decimal and hexadecimal rendering, string comparison and joining.
  - `time.rs` — timestamps at nanosecond precision, the clock, and time formatting (strftime patterns and RFC 3339).
  - `models/` — the models: task transitions and their queries, workflow
    steps and their retry and backoff rules, the batch state machine, worker
    registrations and transports, task diagrams (Mermaid and HTML rendering,
    longest dependency chain), step readiness and DAG relationships,
    execution contexts and stored readiness rows, and the slowest-task and
    slowest-step insights.
- `tests/` — tests of the library on concrete values.
- `app/` — the database layer (sqlx queries), the serde forms of the models,
  and the floating-point and decimal presentation helpers.

## Checking

`src/` is verified with Verus. Every public function states its result in
its `ensures` clause; where the result depends on the clock, on random
bits or on the platform (the identity hash), the clause states what holds
of every outcome. The laws that relate several functions are proof
functions named `lemma_*` beside the functions they speak of.
