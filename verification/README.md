# hive_persistence

The decision layer of Hive's deployment persistence, written in Verus and proved against its
contracts. Every rule the deployment commands, the approval cycle, the outbox worker and the
computed GraphQL fields apply is a function over plain values here; the database reads and writes
that feed those functions stay with the caller.

## Layout

| Path | Contents |
| --- | --- |
| `src/text.rs`, `src/json.rs`, `src/ids.rs` | Text helpers (trimming, decimal text, ordering, field splitting), `jsonb` documents as plain values, and identifiers |
| `src/lifecycle.rs` | Deployment lifecycle and approval requirement statuses |
| `src/evidence.rs` | Frozen-cycle matching, evidence snapshot states and the evidence issue of a cycle |
| `src/rows.rs` | Row rules: current attempts, rollback targets, the rows a new deployment freezes |
| `src/approval.rs` | The approval cycle: new requirements, reconciliation, archive boundaries, the automatic handoff, eligibility, maintenance health and worker readiness |
| `src/decisions.rs`, `src/decision_flow.rs` | The approval decision command: refusal codes, the request's canonical text, qualifying approvers, and the order of its reads, plans and writes |
| `src/mutations.rs` | The refusal ladders of deploy, cancel, promote, retry and rollback |
| `src/worker.rs` | The outbox worker: delivery, retry backoff, execution, completion and heartbeats |
| `src/computed.rs` | Timeline, review, action gates and the approval surface's fields |
| `src/cursors.rs` | The approval cursors |
| `src/clock.rs` | The service clock |
| `tests/` | Tests over concrete values |
| `app/` | Conversions from `serde_json`, `uuid` and `chrono` values, and the loops that run the decision command and the worker's delivery step |
