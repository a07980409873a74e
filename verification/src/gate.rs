//! The request gate: the effective timeout of a request, and how each
//! terminal path turns into a reply and exactly one metric update.

use vstd::prelude::*;

use crate::config::RuntimeConfig;
use crate::errors::{spec_reason, ExecError, FailureReason};
use crate::metrics::{spec_sat_add, spec_sat_inc, MetricsRegistry};
use crate::response::ExecuteResponse;

verus! {

/// The timeout a request runs under: the requested seconds where given,
/// the configured default where not, clamped into `1 ..= max`.
pub open spec fn spec_effective_timeout(requested: Option<u64>, default: u64, max: u64) -> u64 {
    let t = match requested {
        Some(t) => t,
        None => default,
    };
    if t < 1 {
        1u64
    } else if t > max {
        max
    } else {
        t
    }
}

/// Clamp a request's timeout into the configured bounds.  Both the
/// wall-clock race and the epoch tick run for exactly this long.
pub fn effective_timeout_seconds(requested: Option<u64>, config: &RuntimeConfig) -> (r: u64)
    requires
        config.wf(),
    ensures
        r == spec_effective_timeout(
            requested,
            config.default_timeout_seconds,
            config.max_timeout_seconds,
        ),
        1 <= r <= config.max_timeout_seconds,
{
    let t = match requested {
        Some(t) => t,
        None => config.default_timeout_seconds,
    };
    if t < 1 {
        1
    } else if t > config.max_timeout_seconds {
        config.max_timeout_seconds
    } else {
        t
    }
}

/// What the executor handed back: its reply, and the error that failed
/// it, where one did.
pub struct ExecOutcome {
    pub response: ExecuteResponse,
    pub failure: Option<ExecError>,
}

impl ExecOutcome {
    /// The reply and the error agree: a failure is recorded exactly
    /// when the reply says so.
    pub open spec fn wf(self) -> bool {
        self.response.success <==> self.failure is None
    }
}

/// How one request ended.
pub enum GateOutcome {
    /// Admission refused the request: the cap was reached.
    Rejected,
    /// The executor finished, well or badly, before the timer.
    Completed(ExecOutcome),
    /// The wall-clock timer fired first; the field is the effective
    /// timeout in seconds.
    TimedOut(u64),
}

impl GateOutcome {
    pub open spec fn wf(self) -> bool {
        match self {
            GateOutcome::Rejected => true,
            GateOutcome::Completed(o) => o.wf(),
            GateOutcome::TimedOut(secs) => 1 <= secs <= 0xffff_ffff,
        }
    }
}

/// Which failure counter a gate outcome feeds, if any.
pub open spec fn spec_outcome_reason(outcome: GateOutcome) -> Option<FailureReason> {
    match outcome {
        GateOutcome::Rejected => Some(FailureReason::InstanceLimit),
        GateOutcome::TimedOut(_) => Some(FailureReason::Timeout),
        GateOutcome::Completed(o) => match o.failure {
            None => None,
            Some(e) => Some(spec_reason(e)),
        },
    }
}

/// Close one request: update exactly one counter — the success counter,
/// or the failure counter of the outcome's reason — then hand back the
/// reply to write.  A successful completion also lands in the duration
/// histogram.  The metric update strictly precedes the reply.
pub fn finish(outcome: GateOutcome, m: &mut MetricsRegistry) -> (r: ExecuteResponse)
    requires
        old(m).wf(),
        outcome.wf(),
    ensures
        final(m).wf(),
// the reply of each terminal path:

        outcome matches GateOutcome::Completed(o) ==> r == o.response,
        outcome is Rejected ==> (r.success == false && r.result is None && (r.error matches Some(
            msg,
        ) && msg@ == "Too many active instances"@) && r.execution_time_ms == 0
            && r.memory_used_bytes == 0 && r.fuel_consumed == 0),
        outcome matches GateOutcome::TimedOut(secs) ==> (r.success == false && r.result is None
            && (r.error matches Some(msg) && msg@ == "Execution timed out"@)
            && r.execution_time_ms == secs * 1000 && r.memory_used_bytes == 0 && r.fuel_consumed
            == 0),
        // exactly one counter moves:
        final(m).executions_success == (if spec_outcome_reason(outcome) is None {
            spec_sat_inc(old(m).executions_success)
        } else {
            old(m).executions_success
        }),
        final(m).failures_instance_limit == (if spec_outcome_reason(outcome) matches Some(
            FailureReason::InstanceLimit,
        ) {
            spec_sat_inc(old(m).failures_instance_limit)
        } else {
            old(m).failures_instance_limit
        }),
        final(m).failures_execution_error == (if spec_outcome_reason(outcome) matches Some(
            FailureReason::ExecutionError,
        ) {
            spec_sat_inc(old(m).failures_execution_error)
        } else {
            old(m).failures_execution_error
        }),
        final(m).failures_timeout == (if spec_outcome_reason(outcome) matches Some(
            FailureReason::Timeout,
        ) {
            spec_sat_inc(old(m).failures_timeout)
        } else {
            old(m).failures_timeout
        }),
        // a success lands in the histogram, nothing else does:
        spec_outcome_reason(outcome) is None ==> final(m).duration_count == spec_sat_inc(
            old(m).duration_count,
        ) && final(m).duration_sum_ms == spec_sat_add(old(m).duration_sum_ms, r.execution_time_ms)
            && (forall|i: int|
            0 <= i < final(m).duration_buckets@.len()
                ==> final(m).duration_buckets@[i] == (if r.execution_time_ms
                <= crate::metrics::spec_bucket_bound_ms(i) {
                spec_sat_inc(old(m).duration_buckets@[i])
            } else {
                old(m).duration_buckets@[i]
            })),
        spec_outcome_reason(outcome) is Some ==> final(m).duration_count == old(m).duration_count
            && final(m).duration_sum_ms == old(m).duration_sum_ms && final(m).duration_buckets
            == old(m).duration_buckets,
{
    match outcome {
        GateOutcome::Rejected => {
            m.record_failure(FailureReason::InstanceLimit);
            ExecuteResponse::instance_limit()
        },
        GateOutcome::TimedOut(secs) => {
            m.record_failure(FailureReason::Timeout);
            ExecuteResponse::timeout(secs)
        },
        GateOutcome::Completed(o) => {
            match &o.failure {
                None => {
                    m.record_success();
                    m.observe_duration_ms(o.response.execution_time_ms);
                },
                Some(e) => {
                    m.record_failure(e.reason());
                },
            }
            o.response
        },
    }
}

} // verus!
