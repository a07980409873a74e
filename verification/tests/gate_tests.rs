use extension_runtime::admission::InstanceCounter;
use extension_runtime::config::RuntimeConfig;
use extension_runtime::errors::ExecError;
use extension_runtime::gate::{effective_timeout_seconds, finish, ExecOutcome, GateOutcome};
use extension_runtime::metrics::MetricsRegistry;
use extension_runtime::response::ExecuteResponse;

#[test]
fn effective_timeout_defaults_and_clamps() {
    let config = RuntimeConfig::default();
    assert_eq!(effective_timeout_seconds(None, &config), 30);
    assert_eq!(effective_timeout_seconds(Some(5), &config), 5);
    assert_eq!(effective_timeout_seconds(Some(0), &config), 1);
    assert_eq!(effective_timeout_seconds(Some(300), &config), 300);
    assert_eq!(effective_timeout_seconds(Some(301), &config), 300);
    assert_eq!(effective_timeout_seconds(Some(1_000_000), &config), 300);
}

#[test]
fn rejected_outcome_counts_instance_limit_once() {
    let mut m = MetricsRegistry::new();
    let r = finish(GateOutcome::Rejected, &mut m);
    assert!(!r.success);
    assert!(r.result.is_none());
    assert_eq!(r.error.as_deref(), Some("Too many active instances"));
    assert_eq!(r.execution_time_ms, 0);
    assert_eq!(r.memory_used_bytes, 0);
    assert_eq!(r.fuel_consumed, 0);
    assert_eq!(m.failures_instance_limit, 1);
    assert_eq!(m.failures_execution_error, 0);
    assert_eq!(m.failures_timeout, 0);
    assert_eq!(m.executions_success, 0);
    assert_eq!(m.duration_count, 0);
}

#[test]
fn timed_out_outcome_counts_timeout_and_reports_the_timeout() {
    let mut m = MetricsRegistry::new();
    let r = finish(GateOutcome::TimedOut(1), &mut m);
    assert!(!r.success);
    assert!(r.result.is_none());
    assert_eq!(r.error.as_deref(), Some("Execution timed out"));
    assert_eq!(r.execution_time_ms, 1000);
    assert_eq!(r.memory_used_bytes, 0);
    assert_eq!(r.fuel_consumed, 0);
    assert_eq!(m.failures_timeout, 1);
    assert_eq!(m.failures_instance_limit, 0);
    assert_eq!(m.failures_execution_error, 0);
    assert_eq!(m.executions_success, 0);
}

#[test]
fn successful_completion_counts_success_and_lands_in_the_histogram() {
    let mut m = MetricsRegistry::new();
    let response = ExecuteResponse {
        success: true,
        result: None,
        error: None,
        execution_time_ms: 30,
        memory_used_bytes: 0,
        fuel_consumed: 10,
    };
    let r = finish(
        GateOutcome::Completed(ExecOutcome { response, failure: None }),
        &mut m,
    );
    assert!(r.success);
    assert_eq!(m.executions_success, 1);
    assert_eq!(m.duration_count, 1);
    assert_eq!(m.duration_sum_ms, 30);
    // 30 ms lands in every bucket from 50 ms up, and in none below.
    assert_eq!(m.duration_buckets[0], 0);
    assert_eq!(m.duration_buckets[1], 0);
    assert_eq!(m.duration_buckets[2], 0);
    assert_eq!(m.duration_buckets[3], 1);
    assert_eq!(m.duration_buckets[10], 1);
}

#[test]
fn failed_completion_counts_execution_error() {
    let mut m = MetricsRegistry::new();
    let e = ExecError::ModuleTooLarge;
    let response = ExecuteResponse {
        success: false,
        result: None,
        error: Some(e.message()),
        execution_time_ms: 2,
        memory_used_bytes: 0,
        fuel_consumed: 0,
    };
    let r = finish(
        GateOutcome::Completed(ExecOutcome { response, failure: Some(e) }),
        &mut m,
    );
    assert!(!r.success);
    assert_eq!(m.failures_execution_error, 1);
    assert_eq!(m.executions_success, 0);
    assert_eq!(m.duration_count, 0);
}

#[test]
fn interrupted_completion_counts_as_timeout() {
    let mut m = MetricsRegistry::new();
    let e = ExecError::Interrupted;
    let response = ExecuteResponse {
        success: false,
        result: None,
        error: Some(e.message()),
        execution_time_ms: 1000,
        memory_used_bytes: 0,
        fuel_consumed: 500,
    };
    finish(
        GateOutcome::Completed(ExecOutcome { response, failure: Some(e) }),
        &mut m,
    );
    assert_eq!(m.failures_timeout, 1);
    assert_eq!(m.failures_execution_error, 0);
}

#[test]
fn eleventh_concurrent_request_is_refused() {
    let mut counter = InstanceCounter::new(10);
    for _ in 0..10 {
        assert!(counter.try_admit());
    }
    assert_eq!(counter.active, 10);
    // The eleventh request finds the cap reached and is refused at once.
    assert!(!counter.try_admit());
    assert_eq!(counter.active, 10);
    let mut m = MetricsRegistry::new();
    let r = finish(GateOutcome::Rejected, &mut m);
    assert_eq!(r.error.as_deref(), Some("Too many active instances"));
    assert_eq!(m.failures_instance_limit, 1);
    // As the ten admitted requests finish, their slots come back.
    for expected in (0..10).rev() {
        counter.release();
        assert_eq!(counter.active, expected);
    }
    assert!(counter.try_admit());
}

#[test]
fn admission_count_never_exceeds_the_cap() {
    let mut counter = InstanceCounter::new(3);
    let mut peak = 0;
    let steps = [true, true, false, true, true, true, false, true, false, false];
    for &arrive in steps.iter() {
        if arrive {
            counter.try_admit();
        } else if counter.active > 0 {
            counter.release();
        }
        assert!(counter.active <= 3);
        if counter.active > peak {
            peak = counter.active;
        }
    }
    assert_eq!(peak, 3);
}
