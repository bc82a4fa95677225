# urn_acoustics

The verified core of an acoustic monitoring service for buried "urn"
listening devices (Helmholtz resonators) that report sound-pressure readings.

`src/` is the library, verified with Verus:

- `device` — the device registry, kept in a `dashmap::DashMap` behind
  specified wrappers; lookup, registration, listing and bulk registration.
- `handlers` — the `ApiResponse` envelope and what each HTTP endpoint answers:
  device registration and lookup, listings, health, test broadcasts, the
  sampling grid of the resonance calculator.
- `simulation` — the ingestion of a simulated reading as a state machine
  (analyse and store the reading, store the analysis, broadcast, decide and
  store an alert, answer), with laws over its runs.
- `queries` — the exact query texts sent to the ClickHouse store.
- `store` — the ClickHouse client handle.
- `websocket` — when the live feed keeps reading from and writing to a client.
- `config` — the service configuration.
- `decimal`, `numeric` — decimal rendering of integers; the carriers of real
  numbers (bit patterns and thousandths).

`app/` is the service itself: axum routes, WebSocket plumbing, ClickHouse I/O
and the floating-point acoustics and localization models, which Verus cannot
reason about. `tests/` exercises the library.
