//! Local runtime filter control.
//!
//! The log-control API reports the filters in force (`GET /filters`) and replaces the
//! stdout filter (`PUT /filters/stdout`) or the OTLP filter (`PUT /filters/otlp`). A
//! rejected filter is answered with `400 Bad Request`, and an OTLP update in a process
//! without OTLP export with `404 Not Found`; neither changes the filters in force.

pub mod config;
pub mod reload;
pub mod router;

pub use config::LogControlConfig;
