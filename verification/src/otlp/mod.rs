//! OTLP export configuration and the decisions made before exporters are built.

pub mod config;
pub mod endpoint;
pub mod rate_limit;

pub use config::{OtlpConfig, OtlpHeadersConfig};
