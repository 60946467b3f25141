use telemetry_setup::guard::{first_error, ShutdownLatch};
use telemetry_setup::tokio_metrics::TokioRuntimeMetrics;

#[test]
fn shutdown_latch_runs_shutdown_once() {
    let mut latch = ShutdownLatch::new();
    assert!(!latch.is_started());
    assert!(latch.begin());
    assert!(latch.is_started());
    assert!(!latch.begin());
    assert!(!latch.begin());
}

#[test]
fn first_error_returns_the_first_failure() {
    assert_eq!(first_error::<String>(vec![]), Ok(()));
    assert_eq!(first_error::<String>(vec![Ok(()), Ok(())]), Ok(()));
    assert_eq!(
        first_error(vec![Ok(()), Err("first".to_string()), Ok(()), Err("second".to_string())]),
        Err("first".to_string())
    );
}

#[test]
fn runtime_metrics_keep_every_count() {
    let metrics = TokioRuntimeMetrics::from_counts(4, 17, usize::MAX);
    assert_eq!(metrics.num_workers, 4);
    assert_eq!(metrics.num_alive_tasks, 17);
    assert_eq!(metrics.global_queue_depth, usize::MAX as u64);
}
