# workflow

The verified core of a distributed workflow engine, written in Verus.

An orchestrator walks a workflow graph node by node; nodes run through
plugins (HTTP and LLM tasks, branching, context rewriting, sub-workflows,
pauses, approvals, and the Parallel / ForkJoin containers that scatter child
tasks and gather their callbacks). Task workers run the child tasks and
report back; a sweeper recovers instances whose worker died. An API layer
authenticates users and API keys and checks permissions.

Storage, queues and HTTP are not part of the library. Every step takes what
they produced (a loaded instance, a stored task, a callback, the current
time) and returns what happens next (the changed instance, the jobs to
dispatch, the answer to send), with a contract that says so.

## Layout

- `src/status.rs` – the lifecycles of templates, instances and tasks.
- `src/engine.rs` – the orchestrator loop: applying node results, callbacks,
  parent notification, the plugin registry.
- `src/driver.rs` – the orchestrator's sequences as state machines: one
  workflow job (lock, run, notify, release), the execution loop, the
  sweeper's cycle and its walk over a container's children.
- `src/container.rs` – Parallel and ForkJoin bookkeeping and its laws.
- `src/plugins.rs` – the other node plugins.
- `src/sweeper.rs`, `src/worker.rs` – recovery and task-worker decisions.
- `src/approval.rs`, `src/instance_ops.rs` – approval voting and operator
  actions on instances.
- `src/account.rs`, `src/apikey.rs`, `src/permission.rs` – logins,
  passwords, API keys, tokens and permission gates.
- `src/config.rs`, `src/pagination.rs`, `src/response.rs`, `src/jobs.rs`,
  `src/template.rs`, `src/text.rs` – configuration, list queries, API
  envelopes, queue messages, task templates and text helpers.
- `src/outside.rs` – the calls into chrono, uuid, rand, sha2, bcrypt and
  serde_json,
  with the contracts the rest of the library relies on.
- `app/` – the command-line entry and the JSON and TOML edges.
- `tests/` – tests of the library.
