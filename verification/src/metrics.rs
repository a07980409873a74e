//! The metrics the service exposes: one success counter, one failure
//! counter per reason, a duration histogram with fixed buckets, and the
//! active-instance gauge (which mirrors the admission counter).

use vstd::prelude::*;

use crate::errors::FailureReason;

verus! {

/// Number of histogram buckets (the bounds below; an overflow count and
/// a sum stand beside them).
pub const DURATION_BUCKET_COUNT: usize = 11;

/// A counter one step further, stopping at its ceiling rather than
/// wrapping.
pub open spec fn spec_sat_inc(x: u64) -> u64 {
    if x == 0xffff_ffff_ffff_ffff {
        x
    } else {
        (x + 1) as u64
    }
}

/// A sum `delta` further, stopping at its ceiling rather than wrapping.
pub open spec fn spec_sat_add(x: u64, delta: u64) -> u64 {
    if x + delta > 0xffff_ffff_ffff_ffff {
        0xffff_ffff_ffff_ffff as u64
    } else {
        (x + delta) as u64
    }
}

/// The upper bound of histogram bucket `i`, in milliseconds: 5 ms up to
/// 10 s, the classical latency ladder.
pub open spec fn spec_bucket_bound_ms(i: int) -> u64 {
    if i == 0 {
        5u64
    } else if i == 1 {
        10u64
    } else if i == 2 {
        25u64
    } else if i == 3 {
        50u64
    } else if i == 4 {
        100u64
    } else if i == 5 {
        250u64
    } else if i == 6 {
        500u64
    } else if i == 7 {
        1000u64
    } else if i == 8 {
        2500u64
    } else if i == 9 {
        5000u64
    } else {
        10000u64
    }
}

/// The upper bounds of the duration histogram, in milliseconds.
pub fn duration_bucket_bounds_ms() -> (r: Vec<u64>)
    ensures
        r@.len() == DURATION_BUCKET_COUNT as int,
        forall|i: int| 0 <= i < r@.len() ==> r@[i] == spec_bucket_bound_ms(i),
{
    let mut r: Vec<u64> = Vec::new();
    r.push(5);
    r.push(10);
    r.push(25);
    r.push(50);
    r.push(100);
    r.push(250);
    r.push(500);
    r.push(1000);
    r.push(2500);
    r.push(5000);
    r.push(10000);
    r
}

/// The registry of everything the service counts.  Bucket counts are
/// cumulative, as a scrape expects: bucket `i` counts every observation
/// at most `spec_bucket_bound_ms(i)` long.
pub struct MetricsRegistry {
    /// Successful executions.
    pub executions_success: u64,
    /// Failures refused at admission.
    pub failures_instance_limit: u64,
    /// Failures inside loading, marshalling or execution.
    pub failures_execution_error: u64,
    /// Failures by timeout, wall clock or epoch.
    pub failures_timeout: u64,
    /// Observations in the duration histogram.
    pub duration_count: u64,
    /// Sum of all observed durations, in milliseconds.
    pub duration_sum_ms: u64,
    /// Cumulative bucket counts, one per bound.
    pub duration_buckets: Vec<u64>,
}

impl MetricsRegistry {
    /// The registry's shape: one bucket count per bound.
    pub open spec fn wf(self) -> bool {
        self.duration_buckets@.len() == DURATION_BUCKET_COUNT as int
    }

    /// A fresh registry with every count at zero.
    pub fn new() -> (r: Self)
        ensures
            r.wf(),
            r.executions_success == 0,
            r.failures_instance_limit == 0,
            r.failures_execution_error == 0,
            r.failures_timeout == 0,
            r.duration_count == 0,
            r.duration_sum_ms == 0,
            forall|i: int| 0 <= i < r.duration_buckets@.len() ==> r.duration_buckets@[i] == 0,
    {
        let mut buckets: Vec<u64> = Vec::new();
        let mut i: usize = 0;
        while i < DURATION_BUCKET_COUNT
            invariant
                0 <= i <= DURATION_BUCKET_COUNT,
                buckets@.len() == i as int,
                forall|j: int| 0 <= j < i ==> buckets@[j] == 0,
            decreases DURATION_BUCKET_COUNT - i,
        {
            buckets.push(0);
            i += 1;
        }
        MetricsRegistry {
            executions_success: 0,
            failures_instance_limit: 0,
            failures_execution_error: 0,
            failures_timeout: 0,
            duration_count: 0,
            duration_sum_ms: 0,
            duration_buckets: buckets,
        }
    }

    /// Count one successful execution.
    pub fn record_success(&mut self)
        requires
            old(self).wf(),
        ensures
            final(self).wf(),
            final(self).executions_success == spec_sat_inc(old(self).executions_success),
            final(self).failures_instance_limit == old(self).failures_instance_limit,
            final(self).failures_execution_error == old(self).failures_execution_error,
            final(self).failures_timeout == old(self).failures_timeout,
            final(self).duration_count == old(self).duration_count,
            final(self).duration_sum_ms == old(self).duration_sum_ms,
            final(self).duration_buckets == old(self).duration_buckets,
    {
        self.executions_success = self.executions_success.saturating_add(1);
    }

    /// Count one failure, on the counter its reason names, and on that
    /// counter alone.
    pub fn record_failure(&mut self, reason: FailureReason)
        requires
            old(self).wf(),
        ensures
            final(self).wf(),
            final(self).executions_success == old(self).executions_success,
            final(self).duration_count == old(self).duration_count,
            final(self).duration_sum_ms == old(self).duration_sum_ms,
            final(self).duration_buckets == old(self).duration_buckets,
            final(self).failures_instance_limit == (if reason is InstanceLimit {
                spec_sat_inc(old(self).failures_instance_limit)
            } else {
                old(self).failures_instance_limit
            }),
            final(self).failures_execution_error == (if reason is ExecutionError {
                spec_sat_inc(old(self).failures_execution_error)
            } else {
                old(self).failures_execution_error
            }),
            final(self).failures_timeout == (if reason is Timeout {
                spec_sat_inc(old(self).failures_timeout)
            } else {
                old(self).failures_timeout
            }),
    {
        match reason {
            FailureReason::InstanceLimit => {
                self.failures_instance_limit = self.failures_instance_limit.saturating_add(1);
            },
            FailureReason::ExecutionError => {
                self.failures_execution_error = self.failures_execution_error.saturating_add(1);
            },
            FailureReason::Timeout => {
                self.failures_timeout = self.failures_timeout.saturating_add(1);
            },
        }
    }

    /// Observe one duration in the histogram: the count rises by one,
    /// the sum by the duration, and every bucket whose bound the
    /// duration does not exceed rises by one.
    pub fn observe_duration_ms(&mut self, ms: u64)
        requires
            old(self).wf(),
        ensures
            final(self).wf(),
            final(self).executions_success == old(self).executions_success,
            final(self).failures_instance_limit == old(self).failures_instance_limit,
            final(self).failures_execution_error == old(self).failures_execution_error,
            final(self).failures_timeout == old(self).failures_timeout,
            final(self).duration_count == spec_sat_inc(old(self).duration_count),
            final(self).duration_sum_ms == spec_sat_add(old(self).duration_sum_ms, ms),
            final(self).duration_buckets@.len() == old(self).duration_buckets@.len(),
            forall|i: int|
                0 <= i < final(self).duration_buckets@.len()
                    ==> final(self).duration_buckets@[i] == (if ms <= spec_bucket_bound_ms(i) {
                    spec_sat_inc(old(self).duration_buckets@[i])
                } else {
                    old(self).duration_buckets@[i]
                }),
    {
        self.duration_count = self.duration_count.saturating_add(1);
        self.duration_sum_ms = self.duration_sum_ms.saturating_add(ms);
        let bounds = duration_bucket_bounds_ms();
        let ghost oldbuckets = self.duration_buckets@;
        let mut i: usize = 0;
        while i < DURATION_BUCKET_COUNT
            invariant
                self.executions_success == old(self).executions_success,
                self.failures_instance_limit == old(self).failures_instance_limit,
                self.failures_execution_error == old(self).failures_execution_error,
                self.failures_timeout == old(self).failures_timeout,
                self.duration_count == spec_sat_inc(old(self).duration_count),
                self.duration_sum_ms == spec_sat_add(old(self).duration_sum_ms, ms),
                oldbuckets == old(self).duration_buckets@,
                self.duration_buckets@.len() == DURATION_BUCKET_COUNT as int,
                oldbuckets.len() == DURATION_BUCKET_COUNT as int,
                bounds@.len() == DURATION_BUCKET_COUNT as int,
                forall|k: int| 0 <= k < bounds@.len() ==> bounds@[k] == spec_bucket_bound_ms(k),
                0 <= i <= DURATION_BUCKET_COUNT,
                forall|j: int|
                    0 <= j < i ==> self.duration_buckets@[j] == (if ms <= spec_bucket_bound_ms(j) {
                        spec_sat_inc(oldbuckets[j])
                    } else {
                        oldbuckets[j]
                    }),
                forall|j: int|
                    i <= j < DURATION_BUCKET_COUNT ==> self.duration_buckets@[j] == oldbuckets[j],
            decreases DURATION_BUCKET_COUNT - i,
        {
            if ms <= bounds[i] {
                let c = self.duration_buckets[i];
                self.duration_buckets.set(i, c.saturating_add(1));
            }
            i += 1;
        }
    }
}

} // verus!
