//! Telemetry setup builder.
//!
//! [`TelemetryBuilder`] owns process-local setup decisions: stdout filtering, optional
//! journald output, optional OTLP export, optional log-control, and optional Tokio
//! runtime metrics.

pub mod feature_checks;
pub mod filter;

use std::time::Duration;

use tracing_subscriber::filter::EnvFilter;
use vstd::prelude::*;
use vstd::string::*;

use crate::error::TelemetryError;
use crate::log_control::reload::FilterState;
use crate::log_control::LogControlConfig;
use crate::otlp::config::seconds_duration;
use crate::otlp::OtlpConfig;

use feature_checks::{
    reject_journald_without_feature, reject_tokio_metrics_without_feature, JOURNALD_SUPPORTED,
    TOKIO_METRICS_SUPPORTED,
};
use filter::{
    chosen_filter, env_filter_rejection, lookup_gives, parse_filter, resolve_stdout_filter_with_lookup, resolves_to,
};

verus! {

/// Seconds between Tokio runtime metric snapshots when none is configured.
pub const DEFAULT_TOKIO_METRICS_INTERVAL_SECONDS: u64 = 5;

/// The settings a [`TelemetryBuilder`] holds.
pub struct BuilderSettings {
    /// Default `service.name` resource value used for OTLP export.
    pub service_name: String,
    /// OTLP export configuration, when OTLP export is enabled.
    pub otlp_config: Option<OtlpConfig>,
    /// Explicit fallback for the local filter.
    pub stdout_filter: Option<String>,
    /// Environment variable read for the local filter before the fallback.
    pub env_var_name: Option<String>,
    /// Log-control server configuration, when log-control is enabled.
    pub log_control_config: Option<LogControlConfig>,
    /// Whether journald output is requested.
    pub enable_journald: bool,
    /// Whether Tokio runtime metrics are requested.
    pub enable_tokio_metrics: bool,
    /// Delay between Tokio runtime metric snapshots.
    pub tokio_metrics_interval: Duration,
}

/// Builder for installing local logging, optional OTLP export, and related helpers.
#[derive(Debug)]
pub struct TelemetryBuilder {
    service_name: String,
    otlp_config: Option<OtlpConfig>,
    stdout_filter: Option<String>,
    env_var_name: Option<String>,
    log_control_config: Option<LogControlConfig>,
    enable_journald: bool,
    enable_tokio_metrics: bool,
    tokio_metrics_interval: Duration,
}

impl View for TelemetryBuilder {
    type V = BuilderSettings;

    closed spec fn view(&self) -> BuilderSettings {
        BuilderSettings {
            service_name: self.service_name,
            otlp_config: self.otlp_config,
            stdout_filter: self.stdout_filter,
            env_var_name: self.env_var_name,
            log_control_config: self.log_control_config,
            enable_journald: self.enable_journald,
            enable_tokio_metrics: self.enable_tokio_metrics,
            tokio_metrics_interval: self.tokio_metrics_interval,
        }
    }
}

/// The local filter the builder settings `settings` choose when `found` is what was read
/// from the environment variable.
pub open spec fn resolved_filter(settings: BuilderSettings, found: Option<String>) -> Seq<char> {
    chosen_filter(found, settings.stdout_filter)
}

/// Whether the settings request an output that this build does not carry, and if so
/// which error reports it (journald is checked first).
pub open spec fn unsupported_feature(settings: BuilderSettings) -> Option<TelemetryError> {
    if settings.enable_journald && !JOURNALD_SUPPORTED {
        Some(TelemetryError::JournaldFeatureDisabled)
    } else if settings.enable_tokio_metrics && !TOKIO_METRICS_SUPPORTED {
        Some(TelemetryError::TokioMetricsFeatureDisabled)
    } else {
        None
    }
}

/// The local filter expression in force at startup and its parsed form.
pub struct StdoutSetup {
    /// The filter expression.
    pub spec: String,
    /// The parsed filter.
    pub filter: EnvFilter,
}

impl TelemetryBuilder {
    /// Creates a builder with local stdout logging enabled, `RUST_LOG` as the filter
    /// environment variable, and all optional exporters and helpers disabled.
    pub fn new(service_name: &str) -> (builder: Self)
        ensures
            builder@.service_name@ == service_name@,
            builder@.otlp_config is None,
            builder@.stdout_filter is None,
            builder@.env_var_name matches Some(name) && name@ == "RUST_LOG"@,
            builder@.log_control_config is None,
            !builder@.enable_journald,
            !builder@.enable_tokio_metrics,
            builder@.tokio_metrics_interval == seconds_duration(DEFAULT_TOKIO_METRICS_INTERVAL_SECONDS),
    {
        TelemetryBuilder {
            service_name: String::from_str(service_name),
            otlp_config: None,
            stdout_filter: None,
            env_var_name: Some(String::from_str("RUST_LOG")),
            log_control_config: None,
            enable_journald: false,
            enable_tokio_metrics: false,
            tokio_metrics_interval: Duration::from_secs(DEFAULT_TOKIO_METRICS_INTERVAL_SECONDS),
        }
    }

    /// Enables OTLP export using the provided configuration.
    pub fn with_otlp_config(self, config: OtlpConfig) -> (builder: Self)
        ensures
            builder@ == (BuilderSettings { otlp_config: Some(config), ..self@ }),
    {
        TelemetryBuilder { otlp_config: Some(config), ..self }
    }

    /// Sets the fallback local filter used when no environment value applies.
    pub fn with_stdout_filter(self, filter: &str) -> (builder: Self)
        ensures
            builder@.stdout_filter matches Some(f) && f@ == filter@,
            builder@ == (BuilderSettings { stdout_filter: builder@.stdout_filter, ..self@ }),
    {
        TelemetryBuilder { stdout_filter: Some(String::from_str(filter)), ..self }
    }

    /// Sets the environment variable read for the local filter before the fallback.
    pub fn with_env_var(self, name: &str) -> (builder: Self)
        ensures
            builder@.env_var_name matches Some(n) && n@ == name@,
            builder@ == (BuilderSettings { env_var_name: builder@.env_var_name, ..self@ }),
    {
        TelemetryBuilder { env_var_name: Some(String::from_str(name)), ..self }
    }

    /// Disables reading the local filter from the process environment.
    pub fn without_env_var(self) -> (builder: Self)
        ensures
            builder@ == (BuilderSettings { env_var_name: None, ..self@ }),
    {
        TelemetryBuilder { env_var_name: None, ..self }
    }

    /// Enables the localhost log-control server using the provided configuration.
    pub fn with_log_control(self, config: LogControlConfig) -> (builder: Self)
        ensures
            builder@ == (BuilderSettings { log_control_config: Some(config), ..self@ }),
    {
        TelemetryBuilder { log_control_config: Some(config), ..self }
    }

    /// Enables journald output.
    pub fn enable_journald(self) -> (builder: Self)
        ensures
            builder@ == (BuilderSettings { enable_journald: true, ..self@ }),
    {
        TelemetryBuilder { enable_journald: true, ..self }
    }

    /// Disables journald output.
    pub fn disable_journald(self) -> (builder: Self)
        ensures
            builder@ == (BuilderSettings { enable_journald: false, ..self@ }),
    {
        TelemetryBuilder { enable_journald: false, ..self }
    }

    /// Enables Tokio runtime metric collection.
    pub fn enable_tokio_metrics(self) -> (builder: Self)
        ensures
            builder@ == (BuilderSettings { enable_tokio_metrics: true, ..self@ }),
    {
        TelemetryBuilder { enable_tokio_metrics: true, ..self }
    }

    /// Disables Tokio runtime metric collection.
    pub fn disable_tokio_metrics(self) -> (builder: Self)
        ensures
            builder@ == (BuilderSettings { enable_tokio_metrics: false, ..self@ }),
    {
        TelemetryBuilder { enable_tokio_metrics: false, ..self }
    }

    /// Sets the delay between Tokio runtime metric snapshots.
    pub fn with_tokio_metrics_interval(self, interval: Duration) -> (builder: Self)
        ensures
            builder@ == (BuilderSettings { tokio_metrics_interval: interval, ..self@ }),
    {
        TelemetryBuilder { tokio_metrics_interval: interval, ..self }
    }

    /// Resolves the local filter from the configured environment variable, read with
    /// `lookup`, or the fallback string.
    pub fn resolve_stdout_filter(&self, lookup: impl Fn(&str) -> Option<String>) -> (res: String)
        requires
            forall|name: &str| call_requires(lookup, (name,)),
        ensures
            resolves_to(lookup, self@.env_var_name, self@.stdout_filter, res@),
    {
        resolve_stdout_filter_with_lookup(&self.env_var_name, lookup, &self.stdout_filter)
    }

    /// Rejects requested outputs that this build does not carry.
    ///
    /// # Errors
    ///
    /// Returns the error that [`unsupported_feature`] names, journald first.
    pub fn check_features(&self) -> (res: Result<(), TelemetryError>)
        ensures
            unsupported_feature(self@) is None ==> res is Ok,
            unsupported_feature(self@) matches Some(error) ==> res == Err::<(), TelemetryError>(error),
    {
        reject_journald_without_feature(self.enable_journald)?;
        reject_tokio_metrics_without_feature(self.enable_tokio_metrics)?;
        Ok(())
    }

    /// Performs the first steps of initialization: rejects unsupported outputs, resolves
    /// the local filter with `lookup` reading the environment, and parses it.
    ///
    /// # Errors
    ///
    /// Returns the unsupported-feature error, or [`TelemetryError::Subscriber`] when the
    /// resolved filter does not parse.
    pub fn prepare_stdout(&self, lookup: impl Fn(&str) -> Option<String>) -> (res: Result<StdoutSetup, TelemetryError>)
        requires
            forall|name: &str| call_requires(lookup, (name,)),
        ensures
            unsupported_feature(self@) matches Some(error) ==> res == Err::<StdoutSetup, TelemetryError>(error),
            unsupported_feature(self@) is None ==> exists|found: Option<String>| {
                &&& #[trigger] lookup_gives(lookup, self@.env_var_name, found)
                &&& match res {
                    Ok(setup) => setup.spec@ == resolved_filter(self@, found)
                        && env_filter_rejection(setup.spec@) is None,
                    Err(error) => error matches TelemetryError::Subscriber(text)
                        && env_filter_rejection(resolved_filter(self@, found)) == Some(text@),
                }
            },
    {
        self.check_features()?;
        let spec = self.resolve_stdout_filter(lookup);
        let filter = parse_filter(spec.as_str())?;
        Ok(StdoutSetup { spec, filter })
    }

    /// The filters the log-control API reports at startup: the local filter `stdout_spec`
    /// and, when OTLP export is enabled, the OTLP filter of its configuration.
    pub fn initial_filter_state(&self, stdout_spec: String) -> (state: FilterState)
        ensures
            state.stdout == stdout_spec,
            self@.otlp_config is None ==> state.otlp is None,
            self@.otlp_config matches Some(config) ==> state.otlp == Some(config.log_level),
    {
        let otlp = match &self.otlp_config {
            Some(config) => Some(config.log_level.clone()),
            None => None,
        };
        FilterState::new(stdout_spec, otlp)
    }

    /// The default `service.name` resource value.
    pub fn service_name(&self) -> (name: &String)
        ensures
            *name == self@.service_name,
    {
        &self.service_name
    }

    /// The OTLP export configuration, when OTLP export is enabled.
    pub fn otlp_config(&self) -> (config: &Option<OtlpConfig>)
        ensures
            *config == self@.otlp_config,
    {
        &self.otlp_config
    }

    /// The log-control server configuration, when log-control is enabled.
    pub fn log_control_config(&self) -> (config: Option<LogControlConfig>)
        ensures
            config == self@.log_control_config,
    {
        self.log_control_config
    }

    /// Whether journald output is requested.
    pub fn journald_enabled(&self) -> (enabled: bool)
        ensures
            enabled == self@.enable_journald,
    {
        self.enable_journald
    }

    /// Whether Tokio runtime metrics are requested.
    pub fn tokio_metrics_enabled(&self) -> (enabled: bool)
        ensures
            enabled == self@.enable_tokio_metrics,
    {
        self.enable_tokio_metrics
    }

    /// The delay between Tokio runtime metric snapshots.
    pub fn tokio_metrics_interval(&self) -> (interval: Duration)
        ensures
            interval == self@.tokio_metrics_interval,
    {
        self.tokio_metrics_interval
    }
}

} // verus!
