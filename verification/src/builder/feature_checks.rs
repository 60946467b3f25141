//! Rejection of optional outputs that this build does not carry.

use vstd::prelude::*;

use crate::error::TelemetryError;

verus! {

/// Whether this build carries journald output.
pub const JOURNALD_SUPPORTED: bool = true;

/// Whether this build carries Tokio runtime metric collection.
pub const TOKIO_METRICS_SUPPORTED: bool = true;

/// Rejects journald usage when the build carries no journald support.
///
/// # Errors
///
/// Returns [`TelemetryError::JournaldFeatureDisabled`] exactly when journald was
/// requested and the build does not carry it.
pub fn reject_journald_without_feature(enabled: bool) -> (res: Result<(), TelemetryError>)
    ensures
        enabled && !JOURNALD_SUPPORTED ==> res matches Err(TelemetryError::JournaldFeatureDisabled),
        !(enabled && !JOURNALD_SUPPORTED) ==> res is Ok,
{
    if enabled && !JOURNALD_SUPPORTED {
        return Err(TelemetryError::JournaldFeatureDisabled);
    }
    Ok(())
}

/// Rejects Tokio metrics when the build carries no Tokio metrics support.
///
/// # Errors
///
/// Returns [`TelemetryError::TokioMetricsFeatureDisabled`] exactly when metrics were
/// requested and the build does not carry them.
pub fn reject_tokio_metrics_without_feature(enabled: bool) -> (res: Result<(), TelemetryError>)
    ensures
        enabled && !TOKIO_METRICS_SUPPORTED ==> res matches Err(TelemetryError::TokioMetricsFeatureDisabled),
        !(enabled && !TOKIO_METRICS_SUPPORTED) ==> res is Ok,
{
    if enabled && !TOKIO_METRICS_SUPPORTED {
        return Err(TelemetryError::TokioMetricsFeatureDisabled);
    }
    Ok(())
}

} // verus!
