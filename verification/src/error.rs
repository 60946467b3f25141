//! Errors returned while configuring or installing telemetry.

use vstd::prelude::*;
use vstd::string::*;

verus! {

/// `tokio::task::JoinError`, the failure of a tracked background task, carried as an
/// opaque value.
#[verifier::external_type_specification]
#[verifier::external_body]
pub struct ExJoinError(tokio::task::JoinError);

/// Background task failure encountered during telemetry shutdown.
#[derive(Debug)]
pub struct BackgroundTaskError(pub tokio::task::JoinError);

/// The text that prefixes every background task failure.
pub open spec fn background_task_prefix() -> Seq<char> {
    "telemetry background task failed: "@
}

impl BackgroundTaskError {
    /// The display text of this failure: the fixed prefix, then the join error's own text.
    pub fn message(&self) -> (text: String)
        ensures
            exists|join_text: String|
                #![trigger to_string_from_display_ensures::<tokio::task::JoinError>(&self.0, join_text)]
                to_string_from_display_ensures::<tokio::task::JoinError>(&self.0, join_text)
                    && text@ == background_task_prefix() + join_text@,
    {
        let join_text = self.0.to_string();
        let mut text = String::from_str("telemetry background task failed: ");
        text.append(join_text.as_str());
        text
    }
}

/// Errors returned while configuring or installing telemetry.
///
/// Where a failure has an underlying cause, the variant carries that cause's text.
#[derive(Debug)]
pub enum TelemetryError {
    /// Trace provider construction failed.
    TraceProvider(String),
    /// Log provider construction failed.
    LogProvider(String),
    /// Meter provider construction failed.
    MeterProvider(String),
    /// Tracing subscriber initialization failed.
    Subscriber(String),
    /// Log-control server startup failed.
    LogControl(String),
    /// Journald output was requested without journald support in this build.
    JournaldFeatureDisabled,
    /// Tokio metrics were requested without Tokio metrics support in this build.
    TokioMetricsFeatureDisabled,
    /// Tokio metrics were enabled without a runtime OTLP configuration.
    TokioMetricsRequiresOtlp,
    /// An OTLP endpoint URL was invalid.
    OtlpEndpoint(String),
    /// A tracked telemetry background task failed during shutdown.
    BackgroundTask(BackgroundTaskError),
}

/// The display text of every variant but `BackgroundTask`, whose text also holds the
/// join error's own text (see [`TelemetryError::message`]).
pub open spec fn error_text(error: TelemetryError) -> Seq<char> {
    match error {
        TelemetryError::TraceProvider(cause) => "failed to initialize trace provider: "@ + cause@,
        TelemetryError::LogProvider(cause) => "failed to initialize log provider: "@ + cause@,
        TelemetryError::MeterProvider(cause) => "failed to initialize meter provider: "@ + cause@,
        TelemetryError::Subscriber(cause) => "failed to initialize tracing subscriber: "@ + cause@,
        TelemetryError::LogControl(cause) => "failed to start log-control server: "@ + cause@,
        TelemetryError::JournaldFeatureDisabled =>
            "the telemetry crate was built without the `journald` feature"@,
        TelemetryError::TokioMetricsFeatureDisabled =>
            "the telemetry crate was built without the `tokio-metrics` feature"@,
        TelemetryError::TokioMetricsRequiresOtlp =>
            "Tokio metrics require OTLP export to be configured"@,
        TelemetryError::OtlpEndpoint(cause) => "invalid OTLP endpoint URL: "@ + cause@,
        TelemetryError::BackgroundTask(_) => background_task_prefix(),
    }
}

fn prefixed(prefix: &str, cause: &String) -> (text: String)
    ensures
        text@ == prefix@ + cause@,
{
    let mut text = String::from_str(prefix);
    text.append(cause.as_str());
    text
}

impl TelemetryError {
    /// Wraps a background task failure.
    pub fn background_task(error: tokio::task::JoinError) -> (res: Self)
        ensures
            res matches TelemetryError::BackgroundTask(inner) && inner.0 == error,
    {
        TelemetryError::BackgroundTask(BackgroundTaskError(error))
    }

    /// Wraps a tracing subscriber failure described by `cause`.
    pub fn subscriber(cause: String) -> (res: Self)
        ensures
            res == TelemetryError::Subscriber(cause),
    {
        TelemetryError::Subscriber(cause)
    }

    /// Wraps a trace provider failure described by `cause`.
    pub fn trace_provider(cause: String) -> (res: Self)
        ensures
            res == TelemetryError::TraceProvider(cause),
    {
        TelemetryError::TraceProvider(cause)
    }

    /// Wraps a log provider failure described by `cause`.
    pub fn log_provider(cause: String) -> (res: Self)
        ensures
            res == TelemetryError::LogProvider(cause),
    {
        TelemetryError::LogProvider(cause)
    }

    /// Wraps a meter provider failure described by `cause`.
    pub fn meter_provider(cause: String) -> (res: Self)
        ensures
            res == TelemetryError::MeterProvider(cause),
    {
        TelemetryError::MeterProvider(cause)
    }

    /// Wraps a log-control server failure described by `cause`.
    pub fn log_control(cause: String) -> (res: Self)
        ensures
            res == TelemetryError::LogControl(cause),
    {
        TelemetryError::LogControl(cause)
    }

    /// Wraps an invalid OTLP endpoint described by `cause`.
    pub fn otlp_endpoint(cause: String) -> (res: Self)
        ensures
            res == TelemetryError::OtlpEndpoint(cause),
    {
        TelemetryError::OtlpEndpoint(cause)
    }

    /// The display text of this error.
    pub fn message(&self) -> (text: String)
        ensures
            !(self is BackgroundTask) ==> text@ == error_text(*self),
            self matches TelemetryError::BackgroundTask(inner) ==> exists|join_text: String|
                #![trigger to_string_from_display_ensures::<tokio::task::JoinError>(&inner.0, join_text)]
                to_string_from_display_ensures::<tokio::task::JoinError>(&inner.0, join_text)
                    && text@ == background_task_prefix() + background_task_prefix() + join_text@,
    {
        match self {
            TelemetryError::TraceProvider(cause) => prefixed("failed to initialize trace provider: ", cause),
            TelemetryError::LogProvider(cause) => prefixed("failed to initialize log provider: ", cause),
            TelemetryError::MeterProvider(cause) => prefixed("failed to initialize meter provider: ", cause),
            TelemetryError::Subscriber(cause) => prefixed("failed to initialize tracing subscriber: ", cause),
            TelemetryError::LogControl(cause) => prefixed("failed to start log-control server: ", cause),
            TelemetryError::JournaldFeatureDisabled =>
                String::from_str("the telemetry crate was built without the `journald` feature"),
            TelemetryError::TokioMetricsFeatureDisabled =>
                String::from_str("the telemetry crate was built without the `tokio-metrics` feature"),
            TelemetryError::TokioMetricsRequiresOtlp =>
                String::from_str("Tokio metrics require OTLP export to be configured"),
            TelemetryError::OtlpEndpoint(cause) => prefixed("invalid OTLP endpoint URL: ", cause),
            TelemetryError::BackgroundTask(inner) => {
                let inner_text = inner.message();
                let mut text = String::from_str("telemetry background task failed: ");
                text.append(inner_text.as_str());
                proof {
                    let join_text = choose|join_text: String|
                        to_string_from_display_ensures::<tokio::task::JoinError>(&inner.0, join_text)
                            && inner_text@ == background_task_prefix() + join_text@;
                    assert(text@ == background_task_prefix() + background_task_prefix() + join_text@);
                }
                text
            },
        }
    }
}

} // verus!
