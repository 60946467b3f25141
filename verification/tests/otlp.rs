use std::collections::HashMap;
use std::time::Duration;

use telemetry_setup::otlp::config::{metrics_interval_from_secs, metrics_interval_secs};
use telemetry_setup::otlp::endpoint::{
    endpoint_from_path, plan_otlp_export, signal_endpoint, signal_headers,
};
use telemetry_setup::{OtlpConfig, OtlpHeadersConfig, TelemetryError};

#[test]
fn otlp_config_defaults_are_local_first() {
    let config = OtlpConfig::default();
    assert_eq!(config.url, "http://localhost:4318");
    assert_eq!(config.log_level, "info");
    assert_eq!(config.service_name, None);
    assert_eq!(config.log_rate_limit_per_sec, None);
    assert_eq!(config.headers, OtlpHeadersConfig::default());
    assert_eq!(config.metrics_interval, std::time::Duration::from_secs(5));
}

#[test]
fn otlp_config_rejects_zero_metrics_interval() {
    let error = metrics_interval_from_secs(0).expect_err("zero metrics interval must be rejected");

    assert!(error.contains("metrics_interval must be between 1 and 86400 seconds"));
}

#[test]
fn otlp_config_rejects_excessive_metrics_interval() {
    let error =
        metrics_interval_from_secs(86401).expect_err("excessive metrics interval must be rejected");

    assert!(error.contains("metrics_interval must be between 1 and 86400 seconds"));
}

#[test]
fn metrics_interval_accepts_the_whole_range() {
    assert_eq!(metrics_interval_from_secs(1), Ok(Duration::from_secs(1)));
    assert_eq!(metrics_interval_from_secs(5), Ok(Duration::from_secs(5)));
    assert_eq!(metrics_interval_from_secs(86400), Ok(Duration::from_secs(86400)));
}

#[test]
fn signal_endpoint_appends_suffix_once() {
    assert_eq!(
        signal_endpoint("http://localhost:4318", "v1/traces").unwrap(),
        "http://localhost:4318/v1/traces"
    );
    assert_eq!(
        signal_endpoint("http://localhost:4318/v1/traces", "v1/traces").unwrap(),
        "http://localhost:4318/v1/traces"
    );
}

#[test]
fn signal_endpoint_trims_trailing_slashes() {
    assert_eq!(
        signal_endpoint("http://collector:4318/otlp//", "v1/logs").unwrap(),
        "http://collector:4318/otlp/v1/logs"
    );
}

#[test]
fn signal_endpoint_reports_invalid_urls_as_endpoint_errors() {
    let error = signal_endpoint("://not-a-url", "v1/traces").unwrap_err();
    assert!(matches!(error, TelemetryError::OtlpEndpoint(_)));
}

#[test]
fn signal_headers_merge_common_and_signal_specific_headers() {
    let headers = signal_headers(
        &OtlpConfig {
            headers: OtlpHeadersConfig {
                common: HashMap::from([
                    ("X-Greptime-DB-Name".to_string(), "edge".to_string()),
                    ("x-shared".to_string(), "common".to_string()),
                ]),
                ..OtlpHeadersConfig::default()
            },
            ..OtlpConfig::default()
        },
        &HashMap::from([
            (
                "x-greptime-pipeline-name".to_string(),
                "greptime_trace_v1".to_string(),
            ),
            ("x-shared".to_string(), "signal".to_string()),
        ]),
    );

    assert_eq!(headers.get("X-Greptime-DB-Name"), Some(&"edge".to_string()));
    assert_eq!(
        headers.get("x-greptime-pipeline-name"),
        Some(&"greptime_trace_v1".to_string())
    );
    assert_eq!(headers.get("x-shared"), Some(&"signal".to_string()));
}

#[test]
fn providers_use_service_name_override_when_present() {
    let plan = plan_otlp_export(
        "controller",
        &OtlpConfig {
            url: "http://localhost:4318".to_string(),
            service_name: Some("custom-controller".to_string()),
            ..OtlpConfig::default()
        },
    )
    .unwrap();

    assert_eq!(plan.service_name, "custom-controller");
}

#[test]
fn providers_fall_back_to_builder_service_name() {
    let plan = plan_otlp_export(
        "controller",
        &OtlpConfig {
            url: "http://localhost:4318".to_string(),
            service_name: None,
            ..OtlpConfig::default()
        },
    )
    .unwrap();

    assert_eq!(plan.service_name, "controller");
}

#[test]
fn providers_report_invalid_otlp_endpoint() {
    let result = plan_otlp_export(
        "controller",
        &OtlpConfig {
            url: "://bad".to_string(),
            ..OtlpConfig::default()
        },
    );

    assert!(matches!(result, Err(TelemetryError::OtlpEndpoint(_))));
}

#[test]
fn export_plan_covers_every_signal() {
    let plan = plan_otlp_export(
        "controller",
        &OtlpConfig {
            url: "http://collector:4318/".to_string(),
            headers: OtlpHeadersConfig {
                common: HashMap::from([("X-Greptime-DB-Name".to_string(), "edge".to_string())]),
                logs: HashMap::from([(
                    "x-greptime-pipeline-name".to_string(),
                    "greptime_identity".to_string(),
                )]),
                ..OtlpHeadersConfig::default()
            },
            metrics_interval: Duration::from_secs(10),
            ..OtlpConfig::default()
        },
    )
    .unwrap();

    assert_eq!(plan.traces.endpoint, "http://collector:4318/v1/traces");
    assert_eq!(plan.logs.endpoint, "http://collector:4318/v1/logs");
    assert_eq!(plan.metrics.endpoint, "http://collector:4318/v1/metrics");
    assert_eq!(plan.traces.headers.len(), 1);
    assert_eq!(plan.logs.headers.len(), 2);
    assert_eq!(
        plan.logs.headers.get("x-greptime-pipeline-name"),
        Some(&"greptime_identity".to_string())
    );
    assert_eq!(plan.metrics_interval, Duration::from_secs(10));
}

#[test]
fn endpoint_from_path_appends_or_keeps() {
    assert_eq!(
        endpoint_from_path("http://localhost:4318", "/", "v1/traces"),
        "http://localhost:4318/v1/traces"
    );
    assert_eq!(
        endpoint_from_path("http://localhost:4318/v1/traces", "/v1/traces", "v1/traces"),
        "http://localhost:4318/v1/traces"
    );
    assert_eq!(
        endpoint_from_path("http://c/base///", "/base///", "v1/metrics"),
        "http://c/base/v1/metrics"
    );
}

#[test]
fn metrics_interval_round_trips_through_whole_seconds() {
    for seconds in [1u64, 5, 60, 86400] {
        let interval = metrics_interval_from_secs(seconds).unwrap();
        let written = metrics_interval_secs(&interval);
        assert_eq!(written, seconds);
        assert_eq!(metrics_interval_from_secs(written), Ok(interval));
    }
}

#[test]
fn endpoint_errors_carry_the_url_parser_text() {
    let expected = url::Url::parse("://not-a-url").unwrap_err().to_string();
    match signal_endpoint("://not-a-url", "v1/traces") {
        Err(TelemetryError::OtlpEndpoint(cause)) => assert_eq!(cause, expected),
        other => panic!("unexpected result: {other:?}"),
    }
    let plan = plan_otlp_export(
        "controller",
        &OtlpConfig {
            url: "://not-a-url".to_string(),
            ..OtlpConfig::default()
        },
    );
    match plan {
        Err(TelemetryError::OtlpEndpoint(cause)) => assert_eq!(cause, expected),
        Err(other) => panic!("unexpected error: {other:?}"),
        Ok(_) => panic!("an invalid URL was accepted"),
    }
}

#[test]
fn metrics_interval_secs_rounds_fractional_intervals_down() {
    assert_eq!(metrics_interval_secs(&Duration::from_millis(1_500)), 1);
    assert_eq!(metrics_interval_secs(&Duration::new(59, 999_999_999)), 59);
    assert_eq!(metrics_interval_secs(&Duration::from_millis(999)), 0);
}

#[test]
fn rederiving_an_endpoint_changes_nothing() {
    for base in ["http://localhost:4318", "http://collector:4318/otlp//", "https://edge.example/"] {
        for suffix in ["v1/traces", "v1/logs", "v1/metrics"] {
            let endpoint = signal_endpoint(base, suffix).unwrap();
            assert_eq!(signal_endpoint(&endpoint, suffix).unwrap(), endpoint);
        }
    }
}
