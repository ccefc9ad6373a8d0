# persona_pilot

The decision core of the PersonaPilot desktop automation toolkit, written in
Verus: every function under `src/` carries a `requires`/`ensures` contract
that Verus proves, and the properties that span several functions are stated
and proved as `pub proof fn lemma_*` items beside them.

## Layout

- `src/domain` — task and run statuses and the task state machine.
- `src/behavior` — behavior planning (budgets, primitives, seeded plans, site
  keys and page archetypes), form action plans and secret aliases.
- `src/desktop` — the desktop workbench: settings validation, list filters and
  pages, profile and template edits, template runs, task controls (retry,
  cancel, manual gates), session bundles, proxy rotation and batch checks,
  run details, evidence report summaries and trends, provider readiness and
  the release smoke contract, and the readers of stored JSON texts (reports,
  task results, artifact metadata, template event chains).
- `src/db` — the store's later columns and the migrations a start-up runs,
  provider risk snapshots (sums, risk flag and version) and cached trust
  score refreshes.
- `src/smoke.rs` — grading of the Lightpanda validation smoke.
- `src/bindings.rs` — the calls into std, `reqwest` and `serde_json` whose
  behaviour the library takes from their stated contracts.
- `tests/` — tests run against the compiled library.
- `app/` — the shell around the library: files, environment, HTTP, the
  settings files' serde copies and the smoke's processes.

The SQLite database layer is not part of this crate: the statements, row
reads and writes and the async plumbing around them are left to the host.
What those flows decide (migrations to run, risk snapshots and their
versions, trust refresh scopes, task transitions, template merges, run
details, secret resolution) is in `src/` and takes the fetched rows and texts
as arguments. It hands plain values to the library
  and acts on what comes back.

## Building

Verus verifies the crate from `src/lib.rs`; the tests link the library with
its outside crates (`reqwest`, `serde`, `serde_json`, `anyhow`).
