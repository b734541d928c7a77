# sabrage-core stages, verified

The decision and rendering logic of Sabrage's five stages — `setup`,
`build`, `install`, `run` and `stop` — written in Verus and proved against
its contracts. What is proved: the rows the verified builders produce and
their severities, the exact `die` texts, the argv the verified command
builders return, the preflight's gate decisions, the parsers over the text
the probes return, and the stage flows that alternate outside work with
decisions — install's four layers, setup's config, submodule and
pinned-dependency steps, the Goldberg stage, the `--wired` forward setup and
the audio guard's arming — as step functions from what the outside work
answered to the rows and the next work. Laws over those flows are stated as
proof functions next to them: install's layers come in order and the
privileged write is asked for at most once; setup never overwrites a config;
every `adb forward` of a wired run answers the saved record naming its port;
the audio switch is asked for only after the record naming the device to
restore was saved.

What is not proved: the outside work itself. The drivers in `app/` run each
flow — they ask worker traits, which the embedding front end implements over
its executor, for the work a step names and hand the answers back — and the
library decides only from those answers.

- `src/text.rs` — character-level building blocks (`lines`, `split_whitespace`,
  `trim`, decimal rendering and parsing) with their specifications.
- `src/events/` — the event shapes and step ids every row is attributed to.
- `src/paths.rs`, `src/process.rs` — path strings and process identities.
- `src/stages/` — one module per stage, plus the policy shared by all of them
  (outcomes, refusals, `require_bottle`, the dry-run law); the flows live in
  `install/flow.rs`, `setup/flow.rs`, `run/goldberg.rs`, `run/actions.rs`
  (wired) and `run/guards.rs` (audio and dashboard guards).
- `app/` — the process around the library: the event sink, the `WINEVR_*`
  environment, the operation lock, the serialized outcome, and the drivers
  that run the flows.
- `tests/` — scenario tests over the library's public functions.
