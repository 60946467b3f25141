use std::cell::{Cell, RefCell};

use telemetry_setup::builder::filter::parse_filter;
use telemetry_setup::log_control::reload::{both_reloads, reload_in_sequence, FilterState};
use telemetry_setup::log_control::router::{
    get_filters, update_otlp_filter, update_stdout_filter, UpdateRejection,
};
use telemetry_setup::LogControlConfig;

fn filter_reload(spec: String) -> Result<(), String> {
    parse_filter(&spec).map(|_| ()).map_err(|error| error.message())
}

fn accept(_: String) -> Result<(), String> {
    Ok(())
}

#[test]
fn log_control_config_defaults_to_port_6669() {
    assert_eq!(LogControlConfig::default(), LogControlConfig { port: 6669 });
}

#[test]
fn stdout_reload_callback_reloads_stdout_and_journald_filters() {
    let result = reload_in_sequence(&filter_reload, Some(&filter_reload), "debug".to_string());

    assert!(result.is_ok());
}

#[test]
fn stdout_reload_callback_reports_malformed_filters() {
    let error = reload_in_sequence(&filter_reload, Some(&filter_reload), "[".to_string())
        .unwrap_err();

    assert!(error.contains("invalid filter directive"));
}

#[test]
fn otlp_reload_callback_reloads_trace_and_log_filters() {
    assert!(reload_in_sequence(&filter_reload, Some(&filter_reload), "debug".to_string()).is_ok());
}

#[test]
fn otlp_reload_callback_reports_malformed_filters() {
    let error = reload_in_sequence(&filter_reload, Some(&filter_reload), "[".to_string())
        .unwrap_err();

    assert!(error.contains("invalid filter directive"));
}

#[test]
fn reload_stops_at_first_failure() {
    let second_calls = Cell::new(0);
    let second = |_: String| -> Result<(), String> {
        second_calls.set(second_calls.get() + 1);
        Ok(())
    };
    let failing = |_: String| -> Result<(), String> { Err("first failed".to_string()) };
    assert_eq!(
        reload_in_sequence(&failing, Some(&second), "info".to_string()),
        Err("first failed".to_string())
    );
    assert_eq!(second_calls.get(), 0);
    assert!(reload_in_sequence(&accept, None::<&fn(String) -> Result<(), String>>, "info".to_string()).is_ok());
}

#[test]
fn get_filters_returns_current_values() {
    let state = FilterState::new("info".to_string(), Some("warn".to_string()));
    let snapshot = get_filters(&state);

    assert_eq!(snapshot.stdout, "info");
    assert_eq!(snapshot.otlp, Some("warn".to_string()));
}

#[test]
fn updating_stdout_filter_invokes_reload_callback() {
    let calls = Cell::new(0);
    let reload = |filter: String| -> Result<(), String> {
        assert_eq!(filter, "debug");
        calls.set(calls.get() + 1);
        Ok(())
    };
    let mut state = FilterState::new("info".to_string(), None);

    let response = update_stdout_filter(&mut state, &reload, "debug".to_string()).unwrap();

    assert_eq!(calls.get(), 1);
    assert_eq!(response.stdout, "debug");
    assert_eq!(get_filters(&state).stdout, "debug");
}

#[test]
fn updating_otlp_filter_without_otlp_returns_not_found() {
    let mut state = FilterState::new("info".to_string(), None);
    let rejection = update_otlp_filter(
        &mut state,
        None::<&fn(String) -> Result<(), String>>,
        "debug".to_string(),
    )
    .unwrap_err();

    assert_eq!(rejection.status_code(), 404);
    assert_eq!(
        rejection,
        UpdateRejection::NotFound("OTLP filtering is not enabled for this process".to_string())
    );
    assert_eq!(state, FilterState::new("info".to_string(), None));
}

#[test]
fn updating_stdout_filter_maps_reload_errors_to_bad_request() {
    let reload = |_: String| -> Result<(), String> { Err("invalid filter".to_string()) };
    let mut state = FilterState::new("info".to_string(), None);

    let rejection = update_stdout_filter(&mut state, &reload, "debug".to_string()).unwrap_err();

    assert_eq!(rejection.status_code(), 400);
    assert_eq!(rejection.message(), "invalid filter");
    assert_eq!(state.stdout, "info");
}

#[test]
fn updating_otlp_filter_invokes_reload_callback_and_updates_state() {
    let calls = Cell::new(0);
    let observed = RefCell::new(None);
    let reload = |filter: String| -> Result<(), String> {
        calls.set(calls.get() + 1);
        *observed.borrow_mut() = Some(filter);
        Ok(())
    };
    let mut state = FilterState::new("info".to_string(), Some("warn".to_string()));

    let response = update_otlp_filter(&mut state, Some(&reload), "debug".to_string()).unwrap();

    assert_eq!(calls.get(), 1);
    assert_eq!(observed.borrow().as_deref(), Some("debug"));
    assert_eq!(response.otlp, Some("debug".to_string()));
    assert_eq!(response.stdout, "info");
}

#[test]
fn rejected_otlp_filter_leaves_state_unchanged() {
    let mut state = FilterState::new("info".to_string(), Some("warn".to_string()));
    let rejection = update_otlp_filter(&mut state, Some(&filter_reload), "[".to_string())
        .unwrap_err();
    assert_eq!(rejection.status_code(), 400);
    assert!(rejection.message().contains("invalid filter directive"));
    assert_eq!(state, FilterState::new("info".to_string(), Some("warn".to_string())));
}

#[test]
fn otlp_reload_needs_both_layers() {
    assert_eq!(both_reloads(Some(1), Some("log")), Some((1, "log")));
    assert_eq!(both_reloads(Some(1), None::<&str>), None);
    assert_eq!(both_reloads(None::<u8>, Some("log")), None);
}
