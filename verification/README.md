# happy_wakey_lambdas

Consent-scoped ingestion for Happy Wakey, verified with Verus.

A source item reaches the briefing only after the pipeline has checked the
shared-auth claims, the live connector consent, an explicit rate-limit grant,
the classifier's consistency with the item, and the deep-link policy; every
refusal or missing answer fails closed. The published outcome is
tenant-scoped, and a security or customer escalation hands support an opaque
card id, never the message.

## Layout

- `src/` — the verified library.
  - `bearer.rs`: the bounded bearer credential.
  - `checks.rs`: the fail-closed checks (middleware contract, claims,
    consent, grant, classification, support reason).
  - `outcome.rs`: assembling the outcome and its telemetry record.
  - `pipeline.rs`: one candidate's run as a state machine (`CandidateRun`),
    with the laws that a successful run passed every gate and stays
    tenant-scoped.
  - `request.rs`, `response.rs`, `json.rs`: the HTTP adapter's framing,
    size limits, head parsing, routing, response writing and JSON string
    literals (with a read-back law).
  - `clock.rs`, `preferences.rs`: RFC 3339 instants and the merged
    preference document, through `time` and `serde_json`.
- `app/` — the program around it: the TCP listener, the service ports and
  the loop that answers a run's requests, and the wire forms with `serde`
  and `thiserror` derives.
- `tests/` — scenario and edge-case tests.
