# bastion

A trust runtime for autonomous agents: execution planning with
compensation, durable workflows, declarative TrustPolicies with background
scans, a Web2 API firewall, and EVM / Solana simulation. The library is
written in Verus. Its functions carry contracts that Verus proves, except
the few marked `#[verifier::external_body]`: those wrap calls into std and
outside crates (clocks, UUIDs, SHA-256, URL, base58, JSON and text
functions), and their contracts are trusted, not proved.

Layout:

- `src/plan.rs`, `decomposer.rs`, `atomicity.rs`: intents, execution plans
  and their sequential legs, compensation bookkeeping.
- `src/workflow/`: workflow state, events and their replay, the decisions of
  the execution loop (`engine.rs`), the built-in activities, store keys, and
  the mapping between plans and workflows (`plan_adapter.rs`).
- `src/policy/`: TrustPolicy resources, their engine rules, lifecycle,
  exceptions and the background scanner.
- `src/firewall/`: API events, rules, OpenAPI allowlists and the stateful
  proxy engine (rate limits, budgets, cost caps).
- `src/sidecar/`: what the HTTP service decides: policy and exception
  registries, scan inputs, execution requests, EVM and Solana simulation
  results.
- `src/audit.rs`, `decision.rs`: audit records and their recomputable
  WYRIWE and observation digests.
- `src/text.rs`, `json.rs`, `num.rs`, `digest.rs`, `ids.rs`, `keyed.rs`:
  text, JSON framing, number parsing, SHA-256 hex digests, UUID text and
  association lists, each with an exact specification.
- `app/`: the HTTP service (axum), the sled-backed workflow store and the
  async run loop, JSON-RPC calls to chain nodes, YAML/JSON parsing, and chain
  route scoring (floating point).
- `tests/`: executable tests of the library.
