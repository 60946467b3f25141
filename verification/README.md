# telemetry-setup

Opinionated telemetry setup for Rust services: formatted `tracing` output to stdout,
optional OTLP export of traces, logs, and metrics, optional journald output, an
optional localhost-only log-control API, and optional Tokio runtime gauges.

## Layout

- `src/` — the verified library. It holds the decisions of the setup, each with a
  contract proved by Verus:
  - `builder/` — `TelemetryBuilder`, the choice of the local filter (environment
    variable, explicit fallback, or `info`), filter parsing, and the rejection of
    outputs this build does not carry;
  - `otlp/` — `OtlpConfig`, per-signal endpoints and headers, the metric interval
    range, and the per-second rate limiter of OTLP log events;
  - `log_control/` — the filters in force and what the `GET /filters`,
    `PUT /filters/stdout`, and `PUT /filters/otlp` endpoints answer;
  - `guard.rs` — that shutdown runs once and reports the first task failure;
  - `error.rs` — `TelemetryError` and its display texts.
- `app/` — the process-level code around the library: subscriber composition,
  OTLP exporters and providers, the HTTP server, background tasks, the
  `TelemetryGuard`, `TelemetryInit::init`, and serde forms of the configuration.
- `tests/` — tests of the library.
