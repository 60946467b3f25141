//! What the log-control endpoints answer and how they change the filters in force.

use vstd::prelude::*;
use vstd::string::*;

use super::reload::FilterState;

verus! {

/// Why a filter update was refused, with the text returned to the client.
#[derive(Debug, Clone, PartialEq, Eq)]
pub enum UpdateRejection {
    /// The filter domain does not exist in this process (HTTP 404).
    NotFound(String),
    /// The reload callback rejected the filter (HTTP 400).
    BadRequest(String),
}

/// HTTP status of a successful request.
pub const STATUS_OK: u16 = 200;

/// HTTP status of a rejected filter.
pub const STATUS_BAD_REQUEST: u16 = 400;

/// HTTP status of a missing filter domain.
pub const STATUS_NOT_FOUND: u16 = 404;

impl UpdateRejection {
    /// The HTTP status code of this rejection.
    pub fn status_code(&self) -> (code: u16)
        ensures
            self is NotFound ==> code == STATUS_NOT_FOUND,
            self is BadRequest ==> code == STATUS_BAD_REQUEST,
    {
        match self {
            UpdateRejection::NotFound(_) => STATUS_NOT_FOUND,
            UpdateRejection::BadRequest(_) => STATUS_BAD_REQUEST,
        }
    }

    /// The response body text of this rejection.
    pub fn message(&self) -> (text: &String)
        ensures
            self matches UpdateRejection::NotFound(m) ==> text == m,
            self matches UpdateRejection::BadRequest(m) ==> text == m,
    {
        match self {
            UpdateRejection::NotFound(m) => m,
            UpdateRejection::BadRequest(m) => m,
        }
    }
}

/// The text returned when OTLP filtering is unavailable.
pub open spec fn otlp_unavailable_text() -> Seq<char> {
    "OTLP filtering is not enabled for this process"@
}

/// The filters in force after the stdout filter was replaced by `filter`.
pub open spec fn with_stdout(state: FilterState, filter: String) -> FilterState {
    FilterState { stdout: filter, ..state }
}

/// The filters in force after the OTLP filter was replaced by `filter`.
pub open spec fn with_otlp(state: FilterState, filter: String) -> FilterState {
    FilterState { otlp: Some(filter), ..state }
}

/// A read reports what the last accepted write wrote: each domain reads back its new
/// filter, the other domain keeps its own, and a second write to a domain replaces the
/// first.
pub proof fn lemma_read_after_write(state: FilterState, first: String, second: String)
    ensures
        with_stdout(state, first).stdout == first,
        with_stdout(state, first).otlp == state.otlp,
        with_otlp(state, first).otlp == Some(first),
        with_otlp(state, first).stdout == state.stdout,
        with_stdout(with_stdout(state, first), second) == with_stdout(state, second),
        with_otlp(with_otlp(state, first), second) == with_otlp(state, second),
        with_stdout(with_otlp(state, first), second) == with_otlp(with_stdout(state, second), first),
{
}

/// Returns the current stdout and OTLP filter strings.
pub fn get_filters(state: &FilterState) -> (snapshot: FilterState)
    ensures
        snapshot == *state,
{
    let otlp = match &state.otlp {
        Some(filter) => Some(filter.clone()),
        None => None,
    };
    FilterState { stdout: state.stdout.clone(), otlp }
}

/// Replaces the stdout filter with `filter` once `reload` has applied it, and returns
/// the filters then in force.
///
/// # Errors
///
/// Returns [`UpdateRejection::BadRequest`] with the reload error when `reload` rejects
/// `filter`; the filters in force are then unchanged.
pub fn update_stdout_filter<F: Fn(String) -> Result<(), String> + ?Sized>(
    state: &mut FilterState,
    reload: &F,
    filter: String,
) -> (res: Result<FilterState, UpdateRejection>)
    requires
        forall|s: String| call_requires(reload, (s,)),
    ensures
        match res {
            Ok(snapshot) => {
                &&& call_ensures(reload, (filter,), Ok::<(), String>(()))
                &&& *final(state) == with_stdout(*old(state), filter)
                &&& snapshot == *final(state)
            },
            Err(rejection) => {
                &&& rejection matches UpdateRejection::BadRequest(error)
                    && call_ensures(reload, (filter,), Err::<(), String>(error))
                &&& *final(state) == *old(state)
            },
        },
{
    let outcome = reload(filter.clone());
    match outcome {
        Err(error) => Err(UpdateRejection::BadRequest(error)),
        Ok(unit) => {
            assert(unit == ());
            assert(outcome == Ok::<(), String>(()));
            state.stdout = filter;
            Ok(get_filters(state))
        },
    }
}

/// Replaces the OTLP filter with `filter` once `reload` has applied it, and returns the
/// filters then in force. `reload` is `None` when OTLP export is not enabled.
///
/// # Errors
///
/// Returns [`UpdateRejection::NotFound`] when OTLP filtering is unavailable, and
/// [`UpdateRejection::BadRequest`] with the reload error when `reload` rejects `filter`;
/// the filters in force are then unchanged.
pub fn update_otlp_filter<F: Fn(String) -> Result<(), String> + ?Sized>(
    state: &mut FilterState,
    reload: Option<&F>,
    filter: String,
) -> (res: Result<FilterState, UpdateRejection>)
    requires
        reload matches Some(r) ==> forall|s: String| call_requires(r, (s,)),
    ensures
        reload is None ==> {
            &&& res matches Err(UpdateRejection::NotFound(text)) && text@ == otlp_unavailable_text()
            &&& *final(state) == *old(state)
        },
        reload matches Some(r) ==> match res {
            Ok(snapshot) => {
                &&& call_ensures(r, (filter,), Ok::<(), String>(()))
                &&& *final(state) == with_otlp(*old(state), filter)
                &&& snapshot == *final(state)
            },
            Err(rejection) => {
                &&& rejection matches UpdateRejection::BadRequest(error)
                    && call_ensures(r, (filter,), Err::<(), String>(error))
                &&& *final(state) == *old(state)
            },
        },
{
    let reload = match reload {
        None => {
            return Err(UpdateRejection::NotFound(
                String::from_str("OTLP filtering is not enabled for this process"),
            ));
        },
        Some(reload) => reload,
    };
    let outcome = reload(filter.clone());
    match outcome {
        Err(error) => Err(UpdateRejection::BadRequest(error)),
        Ok(unit) => {
            assert(unit == ());
            assert(outcome == Ok::<(), String>(()));
            state.otlp = Some(filter);
            Ok(get_filters(state))
        },
    }
}

} // verus!
