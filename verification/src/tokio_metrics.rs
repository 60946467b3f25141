//! Snapshots of Tokio runtime metrics.

use vstd::prelude::*;

verus! {

/// Snapshot of Tokio runtime metrics recorded by the monitor task.
#[derive(Debug, Clone, Copy, PartialEq, Eq)]
pub struct TokioRuntimeMetrics {
    /// Number of worker threads owned by the runtime.
    pub num_workers: u64,
    /// Number of tasks currently alive on the runtime.
    pub num_alive_tasks: u64,
    /// Depth of the runtime global task queue.
    pub global_queue_depth: u64,
}

impl TokioRuntimeMetrics {
    /// Builds a snapshot from the counts the runtime reports; no count is truncated.
    pub fn from_counts(num_workers: usize, num_alive_tasks: usize, global_queue_depth: usize) -> (metrics: Self)
        ensures
            metrics.num_workers == num_workers,
            metrics.num_alive_tasks == num_alive_tasks,
            metrics.global_queue_depth == global_queue_depth,
    {
        TokioRuntimeMetrics {
            num_workers: num_workers as u64,
            num_alive_tasks: num_alive_tasks as u64,
            global_queue_depth: global_queue_depth as u64,
        }
    }
}

} // verus!
