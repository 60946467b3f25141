//! Filter strings in force and the application of filter reloads.

use vstd::prelude::*;

verus! {

/// The filter strings currently in force, as the log-control API reports them.
#[derive(Debug, Clone, PartialEq, Eq)]
pub struct FilterState {
    /// The local stdout and journald filter.
    pub stdout: String,
    /// The OTLP trace and log filter, when OTLP export is enabled.
    pub otlp: Option<String>,
}

impl FilterState {
    /// Builds the state from the filters in force at startup.
    pub fn new(stdout: String, otlp: Option<String>) -> (state: Self)
        ensures
            state == (FilterState { stdout, otlp }),
    {
        FilterState { stdout, otlp }
    }
}

/// The OTLP filter domain can be reloaded only when both the trace layer and the log
/// layer can: the pair of their reload handles when both exist, else `None`.
pub fn both_reloads<A, B>(trace_reload: Option<A>, log_reload: Option<B>) -> (pair: Option<(A, B)>)
    ensures
        match (trace_reload, log_reload) {
            (Some(trace), Some(log)) => pair == Some((trace, log)),
            _ => pair is None,
        },
{
    match (trace_reload, log_reload) {
        (Some(trace), Some(log)) => Some((trace, log)),
        _ => None,
    }
}

/// Whether applying `spec` with `first`, then (once `first` succeeded) with `second`,
/// can have produced `outcome`: success needs both to succeed, and a failure is the
/// first failure met.
pub open spec fn sequence_outcome<F: Fn(String) -> Result<(), String> + ?Sized, G: Fn(String) -> Result<(), String> + ?Sized>(
    first: &F,
    second: Option<&G>,
    spec: String,
    outcome: Result<(), String>,
) -> bool {
    match outcome {
        Ok(_) => call_ensures(first, (spec,), Ok::<(), String>(()))
            && (second matches Some(g) ==> call_ensures(g, (spec,), Ok::<(), String>(()))),
        Err(error) => call_ensures(first, (spec,), Err::<(), String>(error))
            || (call_ensures(first, (spec,), Ok::<(), String>(()))
                && (second matches Some(g) && call_ensures(g, (spec,), Err::<(), String>(error)))),
    }
}

/// Whether every result `reload` can give for `spec` is `Ok`: the layer takes the filter.
pub open spec fn always_accepts<F: Fn(String) -> Result<(), String> + ?Sized>(reload: &F, spec: String) -> bool {
    forall|r: Result<(), String>| #[trigger] call_ensures(reload, (spec,), r) ==> r is Ok
}

/// Whether every result `reload` can give for `spec` is an error: the layer refuses it.
pub open spec fn always_rejects<F: Fn(String) -> Result<(), String> + ?Sized>(reload: &F, spec: String) -> bool {
    forall|r: Result<(), String>| #[trigger] call_ensures(reload, (spec,), r) ==> r is Err
}

/// Once the first layer has taken the filter, the second layer decides: the sequence
/// succeeds only if the second layer was given the same filter and took it, and
/// otherwise fails with the second layer's own error.
pub proof fn lemma_second_reload_decides<F: Fn(String) -> Result<(), String> + ?Sized, G: Fn(String) -> Result<(), String> + ?Sized>(
    first: &F,
    second: &G,
    spec: String,
    outcome: Result<(), String>,
)
    requires
        always_accepts(first, spec),
        sequence_outcome(first, Some(second), spec, outcome),
    ensures
        outcome is Ok ==> call_ensures(second, (spec,), Ok::<(), String>(())),
        outcome matches Err(error) ==> call_ensures(second, (spec,), Err::<(), String>(error)),
{
    if let Err(error) = outcome {
        if call_ensures(first, (spec,), Err::<(), String>(error)) {
            assert(Err::<(), String>(error) is Ok);
        }
    }
}

/// A domain of one layer succeeds whenever that layer takes the filter.
pub proof fn lemma_single_layer_success<F: Fn(String) -> Result<(), String> + ?Sized, G: Fn(String) -> Result<(), String> + ?Sized>(
    first: &F,
    spec: String,
    outcome: Result<(), String>,
)
    requires
        always_accepts(first, spec),
        sequence_outcome(first, Option::<&G>::None, spec, outcome),
    ensures
        outcome is Ok,
{
    if let Err(error) = outcome {
        assert(call_ensures(first, (spec,), Err::<(), String>(error)));
        assert(Err::<(), String>(error) is Ok);
    }
}

/// When the first layer refuses the filter, the sequence fails with the first layer's
/// own error, whatever the second layer would have done.
pub proof fn lemma_first_rejection_is_reported<F: Fn(String) -> Result<(), String> + ?Sized, G: Fn(String) -> Result<(), String> + ?Sized>(
    first: &F,
    second: Option<&G>,
    spec: String,
    outcome: Result<(), String>,
)
    requires
        always_rejects(first, spec),
        sequence_outcome(first, second, spec, outcome),
    ensures
        outcome matches Err(error) && call_ensures(first, (spec,), Err::<(), String>(error)),
{
    match outcome {
        Ok(_) => {
            assert(call_ensures(first, (spec,), Ok::<(), String>(())));
            assert(Ok::<(), String>(()) is Err);
        },
        Err(error) => {
            if call_ensures(first, (spec,), Ok::<(), String>(())) {
                assert(Ok::<(), String>(()) is Err);
            }
        },
    }
}

/// Reloads a filter domain made of one or two layers: applies `spec` with `first`, then,
/// when that succeeded, with `second` if present. The first failure is returned.
///
/// The stdout domain is the formatting layer and, when enabled, the journald layer; the
/// OTLP domain is the trace layer and the log layer.
pub fn reload_in_sequence<F: Fn(String) -> Result<(), String> + ?Sized, G: Fn(String) -> Result<(), String> + ?Sized>(
    first: &F,
    second: Option<&G>,
    spec: String,
) -> (outcome: Result<(), String>)
    requires
        forall|s: String| call_requires(first, (s,)),
        second matches Some(g) ==> forall|s: String| call_requires(g, (s,)),
    ensures
        sequence_outcome(first, second, spec, outcome),
{
    let first_outcome = first(spec.clone());
    match first_outcome {
        Err(error) => {
            assert(first_outcome == Err::<(), String>(error));
            Err(error)
        },
        Ok(unit) => {
            assert(unit == ());
            assert(first_outcome == Ok::<(), String>(()));
            match second {
                None => Ok(()),
                Some(g) => {
                    let second_outcome = g(spec);
                    match second_outcome {
                        Err(error) => Err(error),
                        Ok(unit) => {
                            assert(unit == ());
                            Ok(())
                        },
                    }
                },
            }
        },
    }
}

} // verus!
