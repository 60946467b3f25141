use std::time::{Duration, UNIX_EPOCH};

use telemetry_setup::otlp::rate_limit::{
    current_unix_second, unix_second_from, RateLimitFilter, RATE_LIMIT_TARGET,
};

const TEST_TARGET: &str = "test_target";

#[test]
fn rate_limit_drops_events_after_limit() {
    let mut filter = RateLimitFilter::new_optional(Some(2));
    let now = filter.state.current_second;

    assert!(filter.allow_at(TEST_TARGET, now).allowed);
    assert!(filter.allow_at(TEST_TARGET, now).allowed);
    assert!(!filter.allow_at(TEST_TARGET, now).allowed);
}

#[test]
fn rate_limit_allows_internal_warning_target() {
    let mut filter = RateLimitFilter::new_optional(Some(0));
    assert!(filter.allow(RATE_LIMIT_TARGET).allowed);
}

#[test]
fn rate_limit_resets_when_second_changes() {
    let mut filter = RateLimitFilter::new_optional(Some(1));
    let now = current_unix_second();
    filter.state.current_second = now;

    assert!(filter.allow_at(TEST_TARGET, now).allowed);
    assert!(!filter.allow_at(TEST_TARGET, now).allowed);

    filter.state.current_second = now.saturating_sub(1);

    assert!(filter.allow_at(TEST_TARGET, now).allowed);
}

#[test]
fn unlimited_filter_allows_everything() {
    let mut filter = RateLimitFilter::new_optional_at(None, 100);
    for _ in 0..1000 {
        let decision = filter.allow_at(TEST_TARGET, 100);
        assert!(decision.allowed);
        assert!(!decision.spawn_warning);
    }
    assert_eq!(filter.state.seen_this_second, 0);
}

#[test]
fn one_warning_per_window() {
    let mut filter = RateLimitFilter::new_optional_at(Some(3), 10);
    let mut allowed = 0;
    let mut warnings = 0;
    for _ in 0..20 {
        let decision = filter.allow_at(TEST_TARGET, 10);
        allowed += decision.allowed as u32;
        warnings += decision.spawn_warning as u32;
    }
    assert_eq!(allowed, 3);
    assert_eq!(warnings, 1);
    assert!(filter.state.warning_emitted);
    assert!(filter.state.warning_thread_active);

    filter.finish_warning();
    let decision = filter.allow_at(TEST_TARGET, 11);
    assert!(decision.allowed);
    assert_eq!(filter.state.seen_this_second, 1);
    assert!(!filter.state.warning_emitted);
}

#[test]
fn warning_is_not_requested_while_one_is_active() {
    let mut filter = RateLimitFilter::new_optional_at(Some(0), 1);
    let first = filter.allow_at(TEST_TARGET, 1);
    assert!(!first.allowed);
    assert!(first.spawn_warning);
    let next_second = filter.allow_at(TEST_TARGET, 2);
    assert!(!next_second.allowed);
    assert!(!next_second.spawn_warning);
    filter.finish_warning();
    let third = filter.allow_at(TEST_TARGET, 3);
    assert!(third.spawn_warning);
}

#[test]
fn internal_target_is_not_counted() {
    let mut filter = RateLimitFilter::new_optional_at(Some(1), 5);
    assert!(filter.allow_at(RATE_LIMIT_TARGET, 5).allowed);
    assert!(filter.allow_at(RATE_LIMIT_TARGET, 5).allowed);
    assert_eq!(filter.state.seen_this_second, 0);
    assert!(filter.allow_at(TEST_TARGET, 5).allowed);
}

#[test]
fn current_unix_second_reads_the_clock() {
    let now = current_unix_second();
    assert!(now > 1_600_000_000);
    let filter = RateLimitFilter::new_optional(Some(5));
    assert!(filter.state.current_second >= now);
    assert_eq!(filter.limit_per_sec, Some(5));
}

#[test]
fn unix_second_from_reads_whole_seconds_or_zero() {
    assert_eq!(unix_second_from(Ok(Duration::from_millis(12_999))), 12);
    let before_epoch = UNIX_EPOCH.duration_since(UNIX_EPOCH + Duration::from_secs(1));
    assert_eq!(unix_second_from(before_epoch), 0);
}

#[test]
fn unix_second_from_rounds_down_just_before_the_next_second() {
    assert_eq!(unix_second_from(Ok(Duration::new(1_700_000_000, 999_999_999))), 1_700_000_000);
    assert_eq!(unix_second_from(Ok(Duration::new(0, 1))), 0);
}
