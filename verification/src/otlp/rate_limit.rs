//! Per-second rate limiting of OTLP log export events.
//!
//! The limiter counts the non-internal events of the current Unix second. Once the
//! count reaches the limit, further events of that second are dropped and a single
//! warning is requested; a new second starts a fresh window.

use std::time::{Duration, SystemTime, SystemTimeError};

use vstd::prelude::*;

use super::config::{duration_whole_seconds, whole_seconds};
use crate::text::str_equal;

verus! {

/// Target of the limiter's own warning event; events with this target are never limited.
pub const RATE_LIMIT_TARGET: &'static str = "telemetry::otlp::rate_limit";

/// `std::time::SystemTime`, a point in wall-clock time, carried as an opaque value.
#[verifier::external_type_specification]
#[verifier::external_body]
pub struct ExSystemTime(SystemTime);

/// `std::time::SystemTimeError`, the failure of a wall-clock difference, carried as an
/// opaque value.
#[verifier::external_type_specification]
#[verifier::external_body]
pub struct ExSystemTimeError(SystemTimeError);

/// Calls `SystemTime::now`; the wall clock is read, so nothing is stated of the result.
#[verifier::external_body]
fn system_time_now() -> SystemTime {
    SystemTime::now()
}

/// Calls `SystemTime::duration_since` with the Unix epoch; it fails when `time` lies
/// before the epoch. Nothing is stated of the result, which depends on the clock reading.
#[verifier::external_body]
fn since_unix_epoch(time: &SystemTime) -> Result<Duration, SystemTimeError> {
    time.duration_since(std::time::UNIX_EPOCH)
}

/// The whole Unix second given the time elapsed since the Unix epoch: `elapsed` rounded
/// down to whole seconds, or zero when the clock read a time before the epoch.
pub fn unix_second_from(elapsed: Result<Duration, SystemTimeError>) -> (secs: u64)
    ensures
        elapsed is Err ==> secs == 0,
        elapsed matches Ok(d) ==> secs == whole_seconds(d),
{
    match elapsed {
        Ok(duration) => duration_whole_seconds(&duration),
        Err(_) => 0,
    }
}

/// Returns the current Unix timestamp rounded down to seconds, or zero when the clock
/// reads a time before the Unix epoch.
pub fn current_unix_second() -> u64 {
    let now = system_time_now();
    unix_second_from(since_unix_epoch(&now))
}

/// Counters of the current one-second window.
#[derive(Debug, Clone, Copy, PartialEq, Eq)]
pub struct RateLimitState {
    /// Unix second of the current window.
    pub current_second: u64,
    /// Events counted in the current window.
    pub seen_this_second: u64,
    /// Whether the current window has already requested its warning.
    pub warning_emitted: bool,
    /// Whether a warning is being emitted right now.
    pub warning_thread_active: bool,
}

/// Rate limiter for OTLP log export events.
#[derive(Debug, Clone, Copy, PartialEq, Eq)]
pub struct RateLimitFilter {
    /// Maximum events allowed per Unix second, or `None` for no limit.
    pub limit_per_sec: Option<u64>,
    /// Counters of the current window.
    pub state: RateLimitState,
}

/// What the limiter decided for one event.
#[derive(Debug, Clone, Copy, PartialEq, Eq)]
pub struct RateDecision {
    /// Whether the event may reach the OTLP log layer.
    pub allowed: bool,
    /// Whether the caller must now emit the single rate-limit warning and then call
    /// [`RateLimitFilter::finish_warning`].
    pub spawn_warning: bool,
}

/// The decision that lets an event through and asks for nothing else.
pub open spec fn pass() -> RateDecision {
    RateDecision { allowed: true, spawn_warning: false }
}

/// The window counters as they stand at second `now`: unchanged within the same second,
/// fresh when the second has changed.
pub open spec fn window_at(state: RateLimitState, now: u64) -> RateLimitState {
    if state.current_second != now {
        RateLimitState {
            current_second: now,
            seen_this_second: 0,
            warning_emitted: false,
            warning_thread_active: state.warning_thread_active,
        }
    } else {
        state
    }
}

/// One event seen at second `now`: the limiter that results and its decision.
/// `internal` tells whether the event carries the limiter's own warning target.
pub open spec fn rate_step(filter: RateLimitFilter, internal: bool, now: u64) -> (RateLimitFilter, RateDecision) {
    match filter.limit_per_sec {
        None => (filter, pass()),
        Some(limit) => if internal {
            (filter, pass())
        } else {
            let window = window_at(filter.state, now);
            let seen = window.seen_this_second;
            let counted = RateLimitState { seen_this_second: seen.wrapping_add(1), ..window };
            if seen < limit {
                (RateLimitFilter { state: counted, ..filter }, pass())
            } else if !window.warning_emitted {
                let warned = RateLimitState {
                    warning_emitted: true,
                    warning_thread_active: true,
                    ..counted
                };
                (
                    RateLimitFilter { state: warned, ..filter },
                    RateDecision { allowed: false, spawn_warning: !window.warning_thread_active },
                )
            } else {
                (RateLimitFilter { state: counted, ..filter }, RateDecision { allowed: false, spawn_warning: false })
            }
        },
    }
}

/// Whether `target` is the limiter's own warning target.
pub open spec fn is_internal_target(target: Seq<char>) -> bool {
    target == RATE_LIMIT_TARGET@
}

/// `n` events with ordinary targets, all seen at second `now`, fed to `filter` in turn:
/// the limiter that results, how many events were allowed, and how many warnings were
/// requested.
pub open spec fn run_window(filter: RateLimitFilter, now: u64, n: nat) -> (RateLimitFilter, nat, nat)
    decreases n,
{
    if n == 0 {
        (filter, 0, 0)
    } else {
        let (before, allowed, warnings) = run_window(filter, now, (n - 1) as nat);
        let (after, decision) = rate_step(before, false, now);
        (
            after,
            allowed + if decision.allowed { 1nat } else { 0nat },
            warnings + if decision.spawn_warning { 1nat } else { 0nat },
        )
    }
}

/// How many of the counts `seen, seen + 1, ..., seen + n - 1` lie below `limit`.
pub open spec fn counts_below(seen: nat, n: nat, limit: nat) -> nat {
    if seen >= limit {
        0
    } else if seen + n <= limit {
        n
    } else {
        (limit - seen) as nat
    }
}

/// Without a limit, every event is allowed and the limiter does not change.
pub proof fn lemma_unlimited_allows_everything(filter: RateLimitFilter, internal: bool, now: u64)
    requires
        filter.limit_per_sec is None,
    ensures
        rate_step(filter, internal, now) == (filter, pass()),
{
}

/// The limiter's own warning events are always allowed and are not counted.
pub proof fn lemma_internal_events_pass_unchanged(filter: RateLimitFilter, now: u64)
    ensures
        rate_step(filter, true, now) == (filter, pass()),
{
}

/// The first ordinary event of a new second is allowed whenever the limit is not zero,
/// however many events the previous second saw.
pub proof fn lemma_new_second_restores_budget(filter: RateLimitFilter, now: u64)
    requires
        filter.limit_per_sec matches Some(limit) && limit > 0,
        filter.state.current_second != now,
    ensures
        rate_step(filter, false, now).1.allowed,
        rate_step(filter, false, now).0.state.current_second == now,
        rate_step(filter, false, now).0.state.seen_this_second == 1,
{
}

/// Within one second the limiter requests at most one warning, whatever state it
/// starts from and however many events arrive.
pub proof fn lemma_at_most_one_warning_per_window(filter: RateLimitFilter, now: u64, n: nat)
    ensures
        run_window(filter, now, n).2 <= 1,
        run_window(filter, now, n).2 == 1 ==> run_window(filter, now, n).0.state.warning_emitted,
        n > 0 && filter.limit_per_sec is Some ==> run_window(filter, now, n).0.state.current_second == now,
        run_window(filter, now, n).0.limit_per_sec == filter.limit_per_sec,
    decreases n,
{
    if n > 0 {
        lemma_at_most_one_warning_per_window(filter, now, (n - 1) as nat);
    }
}

/// Within one second, a limiter whose window has already counted `seen` events lets
/// through exactly those of the next `n` events whose count stays below the limit, as
/// long as the counter does not overflow.
pub proof fn lemma_window_budget(filter: RateLimitFilter, now: u64, n: nat)
    requires
        filter.limit_per_sec is Some,
        window_at(filter.state, now).seen_this_second + n <= u64::MAX,
    ensures
        ({
            let seen = window_at(filter.state, now).seen_this_second as nat;
            let limit = filter.limit_per_sec->0 as nat;
            &&& run_window(filter, now, n).1 == counts_below(seen, n, limit)
            &&& n > 0 ==> run_window(filter, now, n).0.state.seen_this_second == seen + n
            &&& n > 0 ==> run_window(filter, now, n).0.state.current_second == now
            &&& run_window(filter, now, n).0.limit_per_sec == filter.limit_per_sec
        }),
    decreases n,
{
    if n > 0 {
        lemma_window_budget(filter, now, (n - 1) as nat);
    }
}

/// A fresh window (a new second, or nothing counted yet) lets through exactly the first
/// `limit` of `n` events, so never more than the limit per second.
pub proof fn lemma_fresh_window_allows_limit(filter: RateLimitFilter, now: u64, n: nat)
    requires
        filter.limit_per_sec is Some,
        filter.state.current_second != now || filter.state.seen_this_second == 0,
        n <= u64::MAX,
    ensures
        run_window(filter, now, n).1 == if n <= filter.limit_per_sec->0 { n } else { filter.limit_per_sec->0 as nat },
{
    lemma_window_budget(filter, now, n);
}

/// Within one second, counting from a fresh window, the `k`-th ordinary event is
/// allowed exactly when `k` is at most the limit.
pub proof fn lemma_kth_event_of_window(filter: RateLimitFilter, now: u64, k: nat)
    requires
        filter.limit_per_sec is Some,
        filter.state.current_second != now || filter.state.seen_this_second == 0,
        1 <= k <= u64::MAX,
    ensures
        rate_step(run_window(filter, now, (k - 1) as nat).0, false, now).1.allowed
            == (k <= filter.limit_per_sec->0),
{
    lemma_window_budget(filter, now, (k - 1) as nat);
}

impl RateLimitFilter {
    /// Creates a rate limiter whose first window is the Unix second `now`.
    ///
    /// When `limit_per_sec` is `None`, the filter allows all events.
    pub fn new_optional_at(limit_per_sec: Option<u64>, now: u64) -> (filter: Self)
        ensures
            filter.limit_per_sec == limit_per_sec,
            filter.state == (RateLimitState {
                current_second: now,
                seen_this_second: 0,
                warning_emitted: false,
                warning_thread_active: false,
            }),
    {
        RateLimitFilter {
            limit_per_sec,
            state: RateLimitState {
                current_second: now,
                seen_this_second: 0,
                warning_emitted: false,
                warning_thread_active: false,
            },
        }
    }

    /// Creates a rate limiter for OTLP log export events, initialized for the current
    /// Unix second.
    ///
    /// When `limit_per_sec` is `None`, the filter allows all events.
    pub fn new_optional(limit_per_sec: Option<u64>) -> (filter: Self)
        ensures
            filter.limit_per_sec == limit_per_sec,
            filter.state.seen_this_second == 0,
            !filter.state.warning_emitted,
            !filter.state.warning_thread_active,
    {
        Self::new_optional_at(limit_per_sec, current_unix_second())
    }

    /// Decides whether an event with target `target`, seen at Unix second `now`, may
    /// reach the OTLP log layer, and updates the window counters.
    pub fn allow_at(&mut self, target: &str, now: u64) -> (decision: RateDecision)
        ensures
            (*final(self), decision) == rate_step(*old(self), is_internal_target(target@), now),
    {
        let limit = match self.limit_per_sec {
            None => return RateDecision { allowed: true, spawn_warning: false },
            Some(limit) => limit,
        };
        if str_equal(target, RATE_LIMIT_TARGET) {
            return RateDecision { allowed: true, spawn_warning: false };
        }
        if self.state.current_second != now {
            self.state.current_second = now;
            self.state.seen_this_second = 0;
            self.state.warning_emitted = false;
        }
        let seen = self.state.seen_this_second;
        self.state.seen_this_second = seen.wrapping_add(1);
        if seen < limit {
            return RateDecision { allowed: true, spawn_warning: false };
        }
        if !self.state.warning_emitted {
            self.state.warning_emitted = true;
            let already_active = self.state.warning_thread_active;
            self.state.warning_thread_active = true;
            return RateDecision { allowed: false, spawn_warning: !already_active };
        }
        RateDecision { allowed: false, spawn_warning: false }
    }

    /// Decides whether an event with target `target` may reach the OTLP log layer at the
    /// current Unix second, and updates the window counters.
    pub fn allow(&mut self, target: &str) -> (decision: RateDecision)
        ensures
            exists|now: u64| (*final(self), decision) == rate_step(*old(self), is_internal_target(target@), now),
    {
        let now = current_unix_second();
        self.allow_at(target, now)
    }

    /// Records that the warning requested by a decision has been emitted, or could not
    /// be, so that a later window may request one again.
    pub fn finish_warning(&mut self)
        ensures
            final(self).limit_per_sec == old(self).limit_per_sec,
            final(self).state == (RateLimitState { warning_thread_active: false, ..old(self).state }),
    {
        self.state.warning_thread_active = false;
    }
}

} // verus!
