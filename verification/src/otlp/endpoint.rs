//! Per-signal OTLP endpoints and headers.

use std::collections::hash_map::RandomState;
use std::collections::HashMap;
use std::time::Duration;

use vstd::prelude::*;
use vstd::std_specs::hash::{builds_valid_hashers, obeys_key_model};
use vstd::string::*;

use super::config::OtlpConfig;
use crate::error::TelemetryError;
use crate::text::{ends_with, lemma_trim_end_removes_trailing_run, str_ends_with, str_trim_end, trim_end};

verus! {

/// Names what `url::Url::parse` makes of `input`: the path component of the parsed
/// URL, or the text of the parser's error where it rejects `input`.
pub uninterp spec fn url_parse_outcome(input: Seq<char>) -> Result<Seq<char>, Seq<char>>;

/// The path component of the URL parsed from `input`, or `None` where the parser
/// rejects `input`.
pub open spec fn url_path(input: Seq<char>) -> Option<Seq<char>> {
    match url_parse_outcome(input) {
        Ok(path) => Some(path),
        Err(_) => None,
    }
}

/// The parser's error text for `input`, or `None` where the parser accepts `input`.
pub open spec fn url_error(input: Seq<char>) -> Option<Seq<char>> {
    match url_parse_outcome(input) {
        Ok(_) => None,
        Err(text) => Some(text),
    }
}

/// Calls `url::Url::parse` on `input` and, on success, reads the parsed URL's path; on
/// failure it hands back the error's text. The contract ties both outcomes to
/// [`url_parse_outcome`].
#[verifier::external_body]
fn parse_url_path(input: &str) -> (res: Result<String, String>)
    ensures
        match res {
            Ok(path) => url_parse_outcome(input@) == Ok::<Seq<char>, Seq<char>>(path@),
            Err(text) => url_parse_outcome(input@) == Err::<Seq<char>, Seq<char>>(text@),
        },
{
    match url::Url::parse(input) {
        Ok(parsed) => Ok(parsed.path().to_string()),
        Err(error) => Err(error.to_string()),
    }
}

/// Whether `HashMap<String, String>` follows vstd's map model: `String` keys compare
/// as their spec values do, and the default hasher is well behaved.
pub open spec fn string_maps_modelled() -> bool {
    obeys_key_model::<String>() && builds_valid_hashers::<RandomState>()
}

/// Calls `HashMap::extend` with the entries of `entries`: under vstd's map model each
/// entry is inserted into `target`, replacing the value of a header name that is
/// already present.
#[verifier::external_body]
fn extend_headers(target: &mut HashMap<String, String>, entries: HashMap<String, String>)
    ensures
        string_maps_modelled() ==> final(target)@ == old(target)@.union_prefer_right(entries@),
{
    target.extend(entries);
}

/// The endpoint of one signal: `base` itself when its URL path already ends with
/// `suffix`, otherwise `base` without trailing slashes, a slash, and `suffix`.
pub open spec fn endpoint_for(base: Seq<char>, path: Seq<char>, suffix: Seq<char>) -> Seq<char> {
    if ends_with(path, suffix) {
        base
    } else {
        trim_end(base, '/') + "/"@ + suffix
    }
}

/// An endpoint is the base URL itself when its path already ends with the suffix.
/// Otherwise it is the base URL with its trailing slashes removed, then exactly one
/// slash, then the suffix: so it ends with the suffix, and the slash before the suffix is
/// never doubled nor left out.
pub proof fn lemma_endpoint_ends_with_suffix(base: Seq<char>, path: Seq<char>, suffix: Seq<char>)
    ensures
        ends_with(path, suffix) ==> endpoint_for(base, path, suffix) == base,
        !ends_with(path, suffix) ==> ends_with(endpoint_for(base, path, suffix), suffix),
        !ends_with(path, suffix) ==> endpoint_for(base, path, suffix).take(trim_end(base, '/').len() as int)
            == trim_end(base, '/'),
        !ends_with(path, suffix) ==> ({
            let endpoint = endpoint_for(base, path, suffix);
            let kept = trim_end(base, '/').len() as int;
            &&& endpoint.len() == kept + 1 + suffix.len()
            &&& endpoint[kept] == '/'
            &&& endpoint.skip(kept + 1) == suffix
            &&& base.take(kept) == endpoint.take(kept)
            &&& forall|i: int| kept <= i < base.len() ==> base[i] == '/'
            &&& kept > 0 ==> endpoint[kept - 1] != '/'
        }),
{
    lemma_trim_end_removes_trailing_run(base, '/');
    if !ends_with(path, suffix) {
        let endpoint = endpoint_for(base, path, suffix);
        let trimmed = trim_end(base, '/');
        reveal_strlit("/");
        let head = trimmed + "/"@;
        assert(head.len() == trimmed.len() + 1);
        assert(head[trimmed.len() as int] == '/');
        assert(endpoint == head + suffix);
        assert(endpoint.subrange(endpoint.len() - suffix.len(), endpoint.len() as int) =~= suffix);
        assert(endpoint.take(trimmed.len() as int) =~= trimmed);
        assert(endpoint.skip(trimmed.len() as int + 1) =~= suffix);
        assert(endpoint[trimmed.len() as int] == head[trimmed.len() as int]);
        if trimmed.len() > 0 {
            assert(endpoint[trimmed.len() - 1] == trimmed.last());
        }
    }
}

/// Deriving an endpoint from an endpoint changes nothing, wherever the URL parser reads
/// the derived endpoint's path as ending with the suffix (as it does when the base URL
/// carries no query or fragment): the suffix is appended at most once.
pub proof fn lemma_endpoint_rederived_unchanged(base: Seq<char>, suffix: Seq<char>)
    requires
        url_path(base) is Some,
        url_path(endpoint_for(base, url_path(base)->0, suffix)) matches Some(path) && ends_with(path, suffix),
    ensures
        ({
            let endpoint = endpoint_for(base, url_path(base)->0, suffix);
            endpoint_for(endpoint, url_path(endpoint)->0, suffix) == endpoint
        }),
{
}

/// The endpoint of one signal, given the path `path` that the URL parser found in
/// `base_url`: `base_url` itself when `path` already ends with `suffix`, otherwise
/// `base_url` without trailing slashes, a slash, and `suffix`.
pub fn endpoint_from_path(base_url: &str, path: &str, suffix: &str) -> (endpoint: String)
    ensures
        endpoint@ == endpoint_for(base_url@, path@, suffix@),
{
    if str_ends_with(path, suffix) {
        return String::from_str(base_url);
    }
    let trimmed = str_trim_end(base_url, '/');
    let mut endpoint = String::from_str(trimmed);
    endpoint.append("/");
    endpoint.append(suffix);
    endpoint
}

/// Returns the per-signal OTLP endpoint derived from `base_url` and `suffix`.
///
/// # Errors
///
/// Returns [`TelemetryError::OtlpEndpoint`] when `base_url` is not a valid URL; it
/// carries the URL parser's error text.
pub fn signal_endpoint(base_url: &str, suffix: &str) -> (res: Result<String, TelemetryError>)
    ensures
        match url_parse_outcome(base_url@) {
            Err(text) => res matches Err(TelemetryError::OtlpEndpoint(cause)) && cause@ == text,
            Ok(path) => res matches Ok(endpoint) && endpoint@ == endpoint_for(base_url@, path, suffix@),
        },
{
    match parse_url_path(base_url) {
        Ok(path) => Ok(endpoint_from_path(base_url, path.as_str(), suffix)),
        Err(cause) => Err(TelemetryError::otlp_endpoint(cause)),
    }
}

/// Builds export headers by merging common and signal-specific header configuration:
/// signal-specific entries override common entries with the same name (stated under
/// vstd's map model, see [`string_maps_modelled`]).
pub fn signal_headers(config: &OtlpConfig, signal_specific: &HashMap<String, String>) -> (headers: HashMap<String, String>)
    ensures
        string_maps_modelled() ==> headers@ == config.headers.common@.union_prefer_right(signal_specific@),
{
    let mut headers = config.headers.common.clone();
    extend_headers(&mut headers, signal_specific.clone());
    headers
}

/// Endpoint and headers for one OTLP signal.
pub struct SignalExport {
    /// Full OTLP/HTTP endpoint for the signal.
    pub endpoint: String,
    /// Headers attached to the signal's export requests.
    pub headers: HashMap<String, String>,
}

/// Everything the OTLP exporters and providers are built from.
pub struct OtlpExportPlan {
    /// The `service.name` resource value applied to every provider.
    pub service_name: String,
    /// Trace export settings.
    pub traces: SignalExport,
    /// Log export settings.
    pub logs: SignalExport,
    /// Metric export settings.
    pub metrics: SignalExport,
    /// Interval between metric export cycles.
    pub metrics_interval: Duration,
}

/// The `service.name` in effect: the configured override, else the builder's name.
pub open spec fn effective_service_name(service_name: Seq<char>, config: OtlpConfig) -> Seq<char> {
    match config.service_name {
        Some(name) => name@,
        None => service_name,
    }
}

/// Whether `export` is the export of one signal of `config` with endpoint suffix
/// `suffix` and signal-specific headers `specific`.
pub open spec fn exports_signal(
    export: SignalExport,
    config: OtlpConfig,
    suffix: Seq<char>,
    specific: HashMap<String, String>,
) -> bool {
    &&& url_path(config.url@) matches Some(path)
        && export.endpoint@ == endpoint_for(config.url@, path, suffix)
    &&& string_maps_modelled() ==> export.headers@ == config.headers.common@.union_prefer_right(specific@)
}

/// Every signal's export headers merge the common headers with that signal's own,
/// whichever signal it is: each signal-specific header is sent with its own value, each
/// common header that the signal does not override is sent with the common value, and
/// no other header is sent (stated under vstd's map model).
pub proof fn lemma_export_headers_merge(
    export: SignalExport,
    config: OtlpConfig,
    suffix: Seq<char>,
    specific: HashMap<String, String>,
)
    requires
        exports_signal(export, config, suffix, specific),
        string_maps_modelled(),
    ensures
        forall|name: String| #[trigger] specific@.contains_key(name)
            ==> export.headers@.contains_key(name) && export.headers@[name] == specific@[name],
        forall|name: String| #[trigger] config.headers.common@.contains_key(name) && !specific@.contains_key(name)
            ==> export.headers@.contains_key(name) && export.headers@[name] == config.headers.common@[name],
        forall|name: String| #[trigger] export.headers@.contains_key(name)
            ==> specific@.contains_key(name) || config.headers.common@.contains_key(name),
{
}

fn signal_export(config: &OtlpConfig, suffix: &str, specific: &HashMap<String, String>) -> (res: Result<SignalExport, TelemetryError>)
    ensures
        url_error(config.url@) matches Some(text) ==> (res matches Err(TelemetryError::OtlpEndpoint(cause))
            && cause@ == text),
        url_path(config.url@) is Some ==> (res matches Ok(export) && exports_signal(export, *config, suffix@, *specific)),
{
    let endpoint = signal_endpoint(config.url.as_str(), suffix)?;
    Ok(SignalExport { endpoint, headers: signal_headers(config, specific) })
}

/// Decides the per-signal endpoints, headers, and the service name of the OTLP
/// providers described by `config`, with `service_name` as the default service name.
///
/// # Errors
///
/// Returns [`TelemetryError::OtlpEndpoint`] when the configured URL is invalid; it
/// carries the URL parser's error text.
pub fn plan_otlp_export(service_name: &str, config: &OtlpConfig) -> (res: Result<OtlpExportPlan, TelemetryError>)
    ensures
        url_error(config.url@) matches Some(text) ==> (res matches Err(TelemetryError::OtlpEndpoint(cause))
            && cause@ == text),
        url_path(config.url@) is Some ==> (res matches Ok(plan) && {
            &&& plan.service_name@ == effective_service_name(service_name@, *config)
            &&& exports_signal(plan.traces, *config, "v1/traces"@, config.headers.traces)
            &&& exports_signal(plan.logs, *config, "v1/logs"@, config.headers.logs)
            &&& exports_signal(plan.metrics, *config, "v1/metrics"@, config.headers.metrics)
            &&& plan.metrics_interval == config.metrics_interval
        }),
        url_path(config.url@) is Some && string_maps_modelled() ==> (res matches Ok(plan) && {
            &&& plan.traces.headers@ == config.headers.common@.union_prefer_right(config.headers.traces@)
            &&& plan.logs.headers@ == config.headers.common@.union_prefer_right(config.headers.logs@)
            &&& plan.metrics.headers@ == config.headers.common@.union_prefer_right(config.headers.metrics@)
        }),
{
    let effective = match &config.service_name {
        Some(name) => name.clone(),
        None => String::from_str(service_name),
    };
    let traces = signal_export(config, "v1/traces", &config.headers.traces)?;
    let logs = signal_export(config, "v1/logs", &config.headers.logs)?;
    let metrics = signal_export(config, "v1/metrics", &config.headers.metrics)?;
    Ok(OtlpExportPlan {
        service_name: effective,
        traces,
        logs,
        metrics,
        metrics_interval: config.metrics_interval,
    })
}

} // verus!
