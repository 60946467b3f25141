//! Opinionated telemetry primitives for Rust services.
//!
//! The library holds the decisions of telemetry setup: which filters apply and whether
//! they parse, which OTLP endpoints and headers each signal uses, how OTLP log events are
//! rate limited, what the runtime log-control API answers, and how shutdown proceeds.

pub mod builder;
pub mod error;
pub mod guard;
pub mod log_control;
pub mod otlp;
pub mod text;
pub mod tokio_metrics;

pub use builder::TelemetryBuilder;
pub use error::{BackgroundTaskError, TelemetryError};
pub use log_control::LogControlConfig;
pub use otlp::{OtlpConfig, OtlpHeadersConfig};
