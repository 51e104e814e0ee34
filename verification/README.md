# pion

Verified core of a cell control plane for fleet agents: heartbeat health classes, the
node-action queue vocabulary, host-enrollment tokens, claim-time secret placeholders, pool
hardware selectors, product telemetry records, and the decision logic of the end-to-end
scenario runner and benchmark driver.

- `src/` — the library, written in Verus. Every function carries a `requires`/`ensures`
  contract; laws that span several functions are public proof functions (`lemma_*`).
- `tests/` — executable tests of the library.
- `app/` — the process-facing shell: environment variables, `serde_json` conversion, the
  asynchronous secret-resolution driver, metric emission, command-line value types and
  `Display`-able error copies.

Outside crates called from verified code sit behind small trusted wrappers: SHA-256
(`sha2`), constant-time comparison (`subtle`) and `String::push`.
