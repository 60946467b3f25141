//! Configuration for optional OTLP export.

use std::collections::HashMap;
use std::time::Duration;

use vstd::prelude::*;
use vstd::string::*;

verus! {

/// Names the `Duration` that `Duration::from_secs` makes of a whole number of seconds.
pub uninterp spec fn seconds_duration(secs: u64) -> Duration;

/// Names the length of `duration` in nanoseconds: the value `Duration::as_nanos`
/// reports, whole seconds and the fractional part together.
pub uninterp spec fn duration_nanos(duration: Duration) -> nat;

/// Nanoseconds in one second.
pub const NANOS_PER_SECOND: u64 = 1_000_000_000;

/// `Duration::from_secs` gives the duration of `secs` whole seconds, with no fractional
/// part; it never panics.
pub assume_specification[ core::time::Duration::from_secs ](secs: u64) -> (res: Duration)
    ensures
        res == seconds_duration(secs),
        duration_nanos(res) == secs * NANOS_PER_SECOND,
;

/// `Duration` is `Copy`: its `clone` gives back the same duration.
pub assume_specification[ <core::time::Duration as Clone>::clone ](duration: &Duration) -> (res: Duration)
    ensures
        res == *duration,
;

/// The whole seconds contained in `duration`: its length rounded down to seconds.
pub open spec fn whole_seconds(duration: Duration) -> int {
    (duration_nanos(duration) as int) / (NANOS_PER_SECOND as int)
}

/// Calls `Duration::as_secs`: the number of whole seconds in `duration`, leaving out the
/// fractional part.
#[verifier::external_body]
pub(crate) fn duration_whole_seconds(duration: &Duration) -> (secs: u64)
    ensures
        secs == whole_seconds(*duration),
{
    duration.as_secs()
}

/// Largest accepted OTLP metric export interval, in seconds (one day).
pub const MAX_METRICS_INTERVAL_SECONDS: u64 = 86_400;

/// Default OTLP metric export interval, in seconds.
pub const DEFAULT_METRICS_INTERVAL_SECONDS: u64 = 5;

/// HTTP headers attached to OTLP export requests.
///
/// Headers in signal-specific maps override [`OtlpHeadersConfig::common`] entries with
/// the same header name.
#[derive(Debug, Clone, PartialEq, Eq)]
pub struct OtlpHeadersConfig {
    /// Headers attached to every OTLP signal request.
    pub common: HashMap<String, String>,
    /// Headers attached only to trace export requests.
    pub traces: HashMap<String, String>,
    /// Headers attached only to log export requests.
    pub logs: HashMap<String, String>,
    /// Headers attached only to metric export requests.
    pub metrics: HashMap<String, String>,
}

impl Default for OtlpHeadersConfig {
    fn default() -> (res: Self)
        ensures
            res.common@ == Map::<String, String>::empty(),
            res.traces@ == Map::<String, String>::empty(),
            res.logs@ == Map::<String, String>::empty(),
            res.metrics@ == Map::<String, String>::empty(),
    {
        OtlpHeadersConfig {
            common: HashMap::new(),
            traces: HashMap::new(),
            logs: HashMap::new(),
            metrics: HashMap::new(),
        }
    }
}

/// Configuration for optional OTLP export.
#[derive(Debug, Clone, PartialEq, Eq)]
pub struct OtlpConfig {
    /// Base collector URL.
    ///
    /// When its path does not already end with a signal suffix, `/v1/traces`,
    /// `/v1/logs`, and `/v1/metrics` are appended for the individual OTLP/HTTP requests.
    pub url: String,
    /// Filter expression applied to OTLP trace and log export layers.
    pub log_level: String,
    /// Optional override for the emitted `service.name` resource attribute.
    pub service_name: Option<String>,
    /// Maximum OTLP log events exported per second.
    pub log_rate_limit_per_sec: Option<u64>,
    /// HTTP headers attached to OTLP export requests.
    pub headers: OtlpHeadersConfig,
    /// Interval between OTLP metric export cycles, between one second and one day.
    pub metrics_interval: Duration,
}

/// The collector URL used when none is configured: a local OTLP/HTTP collector.
pub open spec fn default_otlp_url() -> Seq<char> {
    "http://localhost:4318"@
}

impl Default for OtlpConfig {
    fn default() -> (res: Self)
        ensures
            res.url@ == default_otlp_url(),
            res.log_level@ == "info"@,
            res.service_name is None,
            res.log_rate_limit_per_sec is None,
            res.headers.common@ == Map::<String, String>::empty(),
            res.headers.traces@ == Map::<String, String>::empty(),
            res.headers.logs@ == Map::<String, String>::empty(),
            res.headers.metrics@ == Map::<String, String>::empty(),
            res.metrics_interval == seconds_duration(DEFAULT_METRICS_INTERVAL_SECONDS),
    {
        OtlpConfig {
            url: String::from_str("http://localhost:4318"),
            log_level: String::from_str("info"),
            service_name: None,
            log_rate_limit_per_sec: None,
            headers: OtlpHeadersConfig::default(),
            metrics_interval: Duration::from_secs(DEFAULT_METRICS_INTERVAL_SECONDS),
        }
    }
}

/// Whether `seconds` is an accepted metric export interval.
pub open spec fn metrics_interval_in_range(seconds: u64) -> bool {
    1 <= seconds <= MAX_METRICS_INTERVAL_SECONDS
}

/// The error text given for a metric export interval outside the accepted range.
pub open spec fn metrics_interval_error() -> Seq<char> {
    "metrics_interval must be between 1 and 86400 seconds"@
}

/// The interval that a configured number of seconds stands for, or `None` when it lies
/// outside the accepted range.
pub open spec fn accepted_interval(seconds: u64) -> Option<Duration> {
    if metrics_interval_in_range(seconds) {
        Some(seconds_duration(seconds))
    } else {
        None
    }
}

/// Turns a configured number of seconds into the metric export interval.
///
/// # Errors
///
/// Returns the range error text when `seconds` is zero or more than one day.
pub fn metrics_interval_from_secs(seconds: u64) -> (res: Result<Duration, String>)
    ensures
        accepted_interval(seconds) matches Some(d) ==> res == Ok::<Duration, String>(d),
        accepted_interval(seconds) is None ==> (res matches Err(text) && text@ == metrics_interval_error()),
        res matches Ok(d) ==> duration_nanos(d) == seconds * NANOS_PER_SECOND,
{
    if seconds < 1 || seconds > MAX_METRICS_INTERVAL_SECONDS {
        return Err(String::from_str("metrics_interval must be between 1 and 86400 seconds"));
    }
    Ok(Duration::from_secs(seconds))
}

/// The number of whole seconds a metric export interval is written as: its length
/// rounded down to seconds.
pub fn metrics_interval_secs(interval: &Duration) -> (secs: u64)
    ensures
        secs == whole_seconds(*interval),
{
    duration_whole_seconds(interval)
}

/// Writing an accepted interval as whole seconds and reading those seconds back gives
/// the same interval.
pub proof fn lemma_metrics_interval_round_trip(seconds: u64, interval: Duration, written: u64)
    requires
        accepted_interval(seconds) == Some(interval),
        duration_nanos(interval) == seconds * NANOS_PER_SECOND,
        written == whole_seconds(interval),
    ensures
        written == seconds,
        accepted_interval(written) == Some(interval),
{
    assert((seconds as int * NANOS_PER_SECOND as int) / (NANOS_PER_SECOND as int) == seconds as int)
        by (nonlinear_arith);
}

} // verus!
