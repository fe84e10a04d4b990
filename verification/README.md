# smalltalk_island

The session island of a desktop memory app: a small panel that shows local
capture and the latest Continue answer, lets the user act on it, and keeps
the expensive work of the app from overlapping.

## Layout

- `src/` — the library, written in Verus and verified:
  - `workload` — the coordinator of expensive work (admission, priority,
    shutdown) with its invariant and policy laws;
  - `contract`, `decision`, `copy`, `text` — the Continue state the island
    shows, built from a Continue decision, with the copy filters it uses;
  - `island`, `capture`, `history`, `request`, `cloud` — the panel snapshot
    and what it reads of capture, saved history and legacy cloud answers;
  - `gateway` — when the island answers from memory and when it adopts a
    new decision;
  - `action`, `native` — the panel's actions: planning, the open gate, the
    native envelope and its routes;
  - `inventory` — the route and state inventory with its gating laws;
  - `turn`, `evidence`, `group`, `surface`, `typing`, `latest`, `relation`,
    `provisional`, `finalize`, `resolve`, `field_rules`, `references` — the pure parts of
    task-turn tracking and of the task-truth verifier: how a frame's spans
    are identified and typed, which typing burst caused a frame, which turn
    is latest, and how turns are recorded, resolved and finalized;
  - `permissions`, `digest` — permission status and content digests.
- `app/` — plain Rust around the library: the shared coordinator, the
  island's memory, its JSON wire format, audit files, the native panel and
  the drivers that perform the steps the library plans.
- `tests/` — tests of the library.

## Outside crates

- `serde` and `serde_json` — the island's JSON wire format in `app/`, and
  the compact JSON of a task turn's supporting ids in `src/finalize.rs`.
- `sha2` — the SHA-256 of the task-truth baseline in `src/digest.rs`, which
  the app's own accuracy fixtures compute with a SHA-256 helper of their own;
  `sha2` stands for that helper.
