//! Filter expressions: which one applies, and whether it parses.

use tracing_subscriber::filter::EnvFilter;
use vstd::prelude::*;
use vstd::string::*;

use crate::error::TelemetryError;

verus! {

/// `tracing_subscriber::filter::EnvFilter`, a parsed filter, carried as an opaque value.
#[verifier::external_type_specification]
#[verifier::external_body]
pub struct ExEnvFilter(EnvFilter);

/// Names how `EnvFilter::try_new` judges the filter expression `spec`: `None` when it
/// accepts it, otherwise the text of the parse error it reports.
pub uninterp spec fn env_filter_rejection(spec: Seq<char>) -> Option<Seq<char>>;

/// Calls `EnvFilter::try_new` on `spec` and hands its parse error back as text.
#[verifier::external_body]
fn try_new_env_filter(spec: &str) -> (res: Result<EnvFilter, String>)
    ensures
        match res {
            Ok(_) => env_filter_rejection(spec@) is None,
            Err(text) => env_filter_rejection(spec@) == Some(text@),
        },
{
    EnvFilter::try_new(spec).map_err(|error| error.to_string())
}

/// Parses the filter expression `spec`.
///
/// # Errors
///
/// Returns [`TelemetryError::Subscriber`] carrying the parse error's text when `spec`
/// is not a valid filter expression.
pub fn parse_filter(spec: &str) -> (res: Result<EnvFilter, TelemetryError>)
    ensures
        res is Ok <==> env_filter_rejection(spec@) is None,
        res matches Err(error) ==> (error matches TelemetryError::Subscriber(text)
            && env_filter_rejection(spec@) == Some(text@)),
{
    match try_new_env_filter(spec) {
        Ok(filter) => Ok(filter),
        Err(text) => Err(TelemetryError::subscriber(text)),
    }
}

/// The filter used when no environment value applies: the explicit fallback, or `info`.
pub open spec fn fallback_filter(stdout_filter: Option<String>) -> Seq<char> {
    match stdout_filter {
        Some(filter) => filter@,
        None => "info"@,
    }
}

/// The local filter chosen from the value found for the environment variable (if one was
/// looked up) and the explicit fallback.
pub open spec fn chosen_filter(found: Option<String>, stdout_filter: Option<String>) -> Seq<char> {
    match found {
        Some(value) => value@,
        None => fallback_filter(stdout_filter),
    }
}

fn fallback(stdout_filter: &Option<String>) -> (res: String)
    ensures
        res@ == fallback_filter(*stdout_filter),
{
    match stdout_filter {
        Some(filter) => filter.clone(),
        None => String::from_str("info"),
    }
}

/// Whether `found` is what `lookup` can give for the variable `var` names; nothing is
/// looked up, and nothing found, when no variable is named.
pub open spec fn lookup_gives<F: Fn(&str) -> Option<String>>(lookup: F, var: Option<String>, found: Option<String>) -> bool {
    match var {
        None => found is None,
        Some(var) => exists|name: &str| name@ == var@ && #[trigger] call_ensures(lookup, (name,), found),
    }
}

/// Whether `res` is a filter that resolution can give: for some value `found` that
/// `lookup` gives for the variable `var` names (nothing when none is named), `res` is
/// that value, or else the explicit fallback `stdout_filter`, or `info`.
pub open spec fn resolves_to<F: Fn(&str) -> Option<String>>(
    lookup: F,
    var: Option<String>,
    stdout_filter: Option<String>,
    res: Seq<char>,
) -> bool {
    exists|found: Option<String>| #[trigger] lookup_gives(lookup, var, found) && res == chosen_filter(found, stdout_filter)
}

/// Whether `lookup` gives one value per variable name: two calls on names with the
/// same text give the same result, as reading an unchanged environment does.
pub open spec fn lookup_is_deterministic<F: Fn(&str) -> Option<String>>(lookup: F) -> bool {
    forall|first: &str, second: &str, a: Option<String>, b: Option<String>|
        #![trigger call_ensures(lookup, (first,), a), call_ensures(lookup, (second,), b)]
        first@ == second@ && call_ensures(lookup, (first,), a) && call_ensures(lookup, (second,), b) ==> a == b
}

/// Resolution is a function of the environment: with a lookup that gives one value per
/// name, any two resolutions of the same variable and fallback give the same filter.
/// So resolving through a builder and resolving through
/// [`resolve_stdout_filter_with_lookup`] with the builder's variable and fallback agree.
pub proof fn lemma_resolution_is_unique<F: Fn(&str) -> Option<String>>(
    lookup: F,
    var: Option<String>,
    stdout_filter: Option<String>,
    first: Seq<char>,
    second: Seq<char>,
)
    requires
        lookup_is_deterministic(lookup),
        resolves_to(lookup, var, stdout_filter, first),
        resolves_to(lookup, var, stdout_filter, second),
    ensures
        first == second,
{
    let a = choose|found: Option<String>| #[trigger] lookup_gives(lookup, var, found)
        && first == chosen_filter(found, stdout_filter);
    let b = choose|found: Option<String>| #[trigger] lookup_gives(lookup, var, found)
        && second == chosen_filter(found, stdout_filter);
    if let Some(v) = var {
        let name_a = choose|name: &str| name@ == v@ && #[trigger] call_ensures(lookup, (name,), a);
        let name_b = choose|name: &str| name@ == v@ && #[trigger] call_ensures(lookup, (name,), b);
        assert(call_ensures(lookup, (name_a,), a) && call_ensures(lookup, (name_b,), b));
        assert(a == b);
    }
}

/// The environment wins: when a variable is named and `lookup` gives `Some(value)` for
/// it, the resolved filter is that value, whatever explicit fallback is configured.
pub proof fn lemma_environment_value_wins<F: Fn(&str) -> Option<String>>(
    lookup: F,
    var: String,
    name: &str,
    value: String,
    stdout_filter: Option<String>,
    res: Seq<char>,
)
    requires
        lookup_is_deterministic(lookup),
        name@ == var@,
        call_ensures(lookup, (name,), Some(value)),
        resolves_to(lookup, Some(var), stdout_filter, res),
    ensures
        res == value@,
{
    let found = choose|found: Option<String>| #[trigger] lookup_gives(lookup, Some(var), found)
        && res == chosen_filter(found, stdout_filter);
    let other = choose|n: &str| n@ == var@ && #[trigger] call_ensures(lookup, (n,), found);
    assert(call_ensures(lookup, (other,), found) && call_ensures(lookup, (name,), Some(value)));
    assert(found == Some(value));
}

/// Without a value from the environment (no variable named, or `lookup` finds nothing
/// for it), the resolved filter is the explicit fallback when one is set, else `info`.
pub proof fn lemma_fallback_without_environment_value<F: Fn(&str) -> Option<String>>(
    lookup: F,
    var: Option<String>,
    stdout_filter: Option<String>,
    res: Seq<char>,
)
    requires
        lookup_is_deterministic(lookup),
        var matches Some(v) ==> exists|name: &str| name@ == v@ && #[trigger] call_ensures(lookup, (name,), None::<String>),
        resolves_to(lookup, var, stdout_filter, res),
    ensures
        stdout_filter matches Some(f) ==> res == f@,
        stdout_filter is None ==> res == "info"@,
{
    let found = choose|found: Option<String>| #[trigger] lookup_gives(lookup, var, found)
        && res == chosen_filter(found, stdout_filter);
    if let Some(v) = var {
        let none_name = choose|name: &str| name@ == v@ && #[trigger] call_ensures(lookup, (name,), None::<String>);
        let other = choose|n: &str| n@ == v@ && #[trigger] call_ensures(lookup, (n,), found);
        assert(call_ensures(lookup, (other,), found) && call_ensures(lookup, (none_name,), None::<String>));
        assert(found is None);
    }
}

/// When no environment variable is named, the environment is not consulted: the filter
/// is the explicit fallback, or `info`, whatever `lookup` would have found.
pub proof fn lemma_no_env_var_uses_fallback<F: Fn(&str) -> Option<String>>(
    lookup: F,
    found: Option<String>,
    stdout_filter: Option<String>,
)
    requires
        lookup_gives(lookup, None, found),
    ensures
        chosen_filter(found, stdout_filter) == fallback_filter(stdout_filter),
{
}

/// Resolves the local filter using `lookup` to read environment values.
///
/// When `env_var_name` names a variable and `lookup` finds a value for it, that value is
/// the filter; otherwise the explicit fallback `stdout_filter`, or `info`.
pub fn resolve_stdout_filter_with_lookup(
    env_var_name: &Option<String>,
    lookup: impl Fn(&str) -> Option<String>,
    stdout_filter: &Option<String>,
) -> (res: String)
    requires
        forall|name: &str| call_requires(lookup, (name,)),
    ensures
        resolves_to(lookup, *env_var_name, *stdout_filter, res@),
{
    if let Some(var) = env_var_name {
        let found = lookup(var.as_str());
        if let Some(filter) = found {
            assert(lookup_gives(lookup, *env_var_name, found));
            return filter;
        }
        assert(lookup_gives(lookup, *env_var_name, found));
        return fallback(stdout_filter);
    }
    assert(lookup_gives(lookup, *env_var_name, None));
    fallback(stdout_filter)
}

} // verus!
