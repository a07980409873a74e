//! The response of one invocation, and the shapes the service replies
//! with on each terminal path.

use vstd::prelude::*;

use crate::errors::{spec_message, ExecError};
use crate::marshal::JsonOut;

verus! {

/// What the service replies for one request, successful or not.  The
/// transport serialises exactly these fields.
pub struct ExecuteResponse {
    pub success: bool,
    /// The marshalled result, on success.
    pub result: Option<JsonOut>,
    /// The error text, on failure.
    pub error: Option<String>,
    /// Wall-clock time of the invocation, in milliseconds.
    pub execution_time_ms: u64,
    /// Final minus initial linear-memory size, clamped at zero.
    pub memory_used_bytes: u64,
    /// Configured fuel minus the fuel left after the invocation.
    pub fuel_consumed: u64,
}

impl ExecuteResponse {
    /// A successful invocation, with its result and its measurements.
    pub fn success(result: JsonOut, execution_time_ms: u64, memory_used_bytes: u64, fuel_consumed: u64) -> (r:
        Self)
        ensures
            r.success == true,
            r.result matches Some(out) && out == result,
            r.error is None,
            r.execution_time_ms == execution_time_ms,
            r.memory_used_bytes == memory_used_bytes,
            r.fuel_consumed == fuel_consumed,
    {
        ExecuteResponse {
            success: true,
            result: Some(result),
            error: None,
            execution_time_ms,
            memory_used_bytes,
            fuel_consumed,
        }
    }

    /// A failed invocation: no result, the error's text, and whatever
    /// was measured before the failure.
    pub fn failure(e: &ExecError, execution_time_ms: u64, memory_used_bytes: u64, fuel_consumed: u64) -> (r:
        Self)
        ensures
            r.success == false,
            r.result is None,
            r.error matches Some(msg) && msg@ == spec_message(*e),
            r.execution_time_ms == execution_time_ms,
            r.memory_used_bytes == memory_used_bytes,
            r.fuel_consumed == fuel_consumed,
    {
        ExecuteResponse {
            success: false,
            result: None,
            error: Some(e.message()),
            execution_time_ms,
            memory_used_bytes,
            fuel_consumed,
        }
    }

    /// The reply when the wall-clock race fires first: the reported
    /// time is exactly the effective timeout.
    pub fn timeout(effective_timeout_seconds: u64) -> (r: Self)
        requires
            effective_timeout_seconds <= 0xffff_ffff,
        ensures
            r.success == false,
            r.result is None,
            r.error matches Some(msg) && msg@ == "Execution timed out"@,
            r.execution_time_ms == effective_timeout_seconds * 1000,
            r.memory_used_bytes == 0,
            r.fuel_consumed == 0,
    {
        ExecuteResponse {
            success: false,
            result: None,
            error: Some(String::from_str("Execution timed out")),
            execution_time_ms: effective_timeout_seconds * 1000,
            memory_used_bytes: 0,
            fuel_consumed: 0,
        }
    }

    /// The reply when admission refuses the request.
    pub fn instance_limit() -> (r: Self)
        ensures
            r.success == false,
            r.result is None,
            r.error matches Some(msg) && msg@ == "Too many active instances"@,
            r.execution_time_ms == 0,
            r.memory_used_bytes == 0,
            r.fuel_consumed == 0,
    {
        ExecuteResponse {
            success: false,
            result: None,
            error: Some(String::from_str("Too many active instances")),
            execution_time_ms: 0,
            memory_used_bytes: 0,
            fuel_consumed: 0,
        }
    }
}

} // verus!
