# thalamus

An event-driven runtime for disposable workers: agents, tasks, model and
tool requests travel as event envelopes over a message bus, and the runtime
keeps the registry of workers, the state of tasks and the registry of tools.

The library under `src/` is verified with Verus:

- `json` — JSON values as plain data, with their mathematical view.
- `protocol` — the event envelope, the payload records of the canonical
  subjects with their written form and its reading back, payload validation
  and normalization, subjects and protocol errors.
- `bus` — subscription identifiers and bus errors; the bookkeeping of the
  in-memory bus (`basic`) and of the NATS-backed bus (`nats`).
- `runtime` — the runtime as a state machine (`engine`): lifecycle, user and
  internal handlers, spawned tasks, the worker registry (`registry`), task
  states (`state`), tools (`tool`), the built-in model providers (`llm`), and
  the envelopes the runtime writes (`events`).
- `cli` — the command-line grammar, what each command reports, the demo.
- `sdk` — the SDK handle and the decisions behind its C entry points.
- `external` — the calls the library makes outside itself: a random UUID,
  the time, the reading of JSON text, and std's quoted form of a string.

`app/` is the program around it: the async runtime over a bus, the in-memory
and NATS buses, model-provider and tool traits, JSON text conversion, the C
entry points and the `thalamus` command line.
