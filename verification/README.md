# srvcs-geometricseriessum

A service that sums the first `n` terms of a geometric sequence by
delegating each arithmetic step to the `srvcs-power`, `srvcs-multiply`,
`srvcs-subtract` and `srvcs-divide` services.

- `src/api.rs` — the service identity, the dependency endpoints, and the
  evaluation as a state machine: `start` gives the first dependency call,
  `step` takes a dependency's answer and gives the next call or the reply.
- `src/series.rs` — the geometric sum and the closed form it is computed by.
- `src/laws.rs` — what holds of whole evaluations: they end within five
  calls, a success repeats the request, correct dependencies yield the
  geometric sum, and one more term adds `first + ratio * sum`.
- `src/openapi.rs` — the OpenAPI document, built with utoipa.
- `app/` — the HTTP service: routing, JSON encoding, the calls to the
  dependencies, and the loop that feeds their answers to `step`.
