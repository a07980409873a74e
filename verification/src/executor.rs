//! The executor: one invocation of one exported function of one module,
//! under fuel, epoch, memory and table limits.
//!
//! The caller hands in the module's bytes (reading the file is the
//! caller's business, after the path checks of `pathcheck`); everything
//! from parsing to the reply is decided here, with each step into the
//! engine behind a trusted item of `engine`.

use vstd::prelude::*;

use crate::config::RuntimeConfig;
use crate::engine::{
    elapsed_millis, engine_vals_of, function_param_types, function_result_types, increment_epoch,
    invoke_selected, load_module, memory_size_pages, module_imports, monotonic_now,
    new_secure_engine, new_store_limits, new_wasi_ctx, read_engine_vals, select_function,
    start_session, CallFailure, HostState, SecureEngine,
};
use crate::errors::{spec_message, ExecError};
use crate::gate::ExecOutcome;
use crate::imports::check_imports;
use crate::marshal::{marshal_in, marshal_out, ParamsValue};
use crate::response::ExecuteResponse;

verus! {

/// Wasm stack cap handed to the engine: 512 KiB.
pub const WASM_STACK_BYTES: usize = 512 * 1024;

/// Virtual-address reservation per linear memory: 16 MiB, comfortably
/// above the 100-page cap a memory can reach here.
pub const MEMORY_RESERVATION_BYTES: u64 = 16 * 1024 * 1024;

/// Bytes of `after - before` pages, zero where the memory shrank,
/// clamped at the counter's ceiling.
pub open spec fn spec_pages_delta_bytes(before: u64, after: u64) -> u64 {
    if after <= before {
        0u64
    } else if (after - before) * 65536 > 0xffff_ffff_ffff_ffff {
        0xffff_ffff_ffff_ffff as u64
    } else {
        ((after - before) * 65536) as u64
    }
}

/// Memory growth of an invocation in bytes, from page counts before and
/// after: never negative, clamped at the counter's ceiling.
pub fn pages_delta_bytes(before: u64, after: u64) -> (r: u64)
    ensures
        r == spec_pages_delta_bytes(before, after),
{
    if after <= before {
        0
    } else {
        let d = after - before;
        if d > 0xffff_ffff_ffffu64 {
            u64::MAX
        } else {
            d * 65536
        }
    }
}

/// A failed invocation as one outcome: the reply carries the error's
/// text and whatever was measured before the failure.
fn outcome_failure(e: ExecError, execution_time_ms: u64, memory_used_bytes: u64, fuel_consumed: u64) -> (r:
    ExecOutcome)
    ensures
        r.wf(),
        r.failure matches Some(f) && f == e,
        r.response.success == false,
        r.response.result is None,
        r.response.error matches Some(msg) && msg@ == spec_message(e),
        r.response.execution_time_ms == execution_time_ms,
        r.response.memory_used_bytes == memory_used_bytes,
        r.response.fuel_consumed == fuel_consumed,
{
    let response = ExecuteResponse::failure(&e, execution_time_ms, memory_used_bytes, fuel_consumed);
    ExecOutcome { response, failure: Some(e) }
}

/// The engine and the configuration one process executes under.
pub struct Executor {
    pub engine: SecureEngine,
    pub config: RuntimeConfig,
}

impl Executor {
    pub open spec fn wf(self) -> bool {
        self.config.wf()
    }

    /// A process-wide executor over a hardened engine.
    pub fn new(config: RuntimeConfig) -> (r: Result<Executor, String>)
        requires
            config.wf(),
        ensures
            r matches Ok(ex) ==> ex.config == config && ex.wf(),
    {
        match new_secure_engine(WASM_STACK_BYTES, MEMORY_RESERVATION_BYTES) {
            Ok(engine) => Ok(Executor { engine, config }),
            Err(e) => Err(e),
        }
    }

    /// Advance the engine's epoch by one.  The request handler calls
    /// this once, when a request's effective timeout elapses: every
    /// store is given deadline one, so the tick interrupts the overdue
    /// guest.
    pub fn tick_epoch(&self) {
        increment_epoch(&self.engine);
    }

    /// Run `function_name` of the module in `module_bytes` on `params`.
    ///
    /// Every reply is accounted for: a reply claims success exactly
    /// when no error is recorded, a failure reply carries its error's
    /// text and no result, the module is refused as too large exactly
    /// when its bytes exceed the configured cap, a request refused
    /// before the call burns no fuel and grows no memory, an exhausted
    /// guest reports exactly the configured charge as consumed, and the
    /// reported fuel never exceeds that charge.
    pub fn execute(&self, function_name: &str, params: &ParamsValue, module_bytes: &Vec<u8>) -> (r:
        ExecOutcome)
        requires
            self.wf(),
        ensures
            r.wf(),
            r.response.success ==> r.response.result is Some && r.response.error is None,
            r.failure matches Some(e) ==> (r.response.error matches Some(msg) && msg@
                == spec_message(e)) && r.response.result is None,
            (r.failure matches Some(e) && e is ModuleTooLarge) <==> module_bytes@.len()
                > self.config.max_module_bytes as int,
            // a request refused before the call burns no fuel and grows no memory:
            r.failure matches Some(e) && (e is BadParams || e is UnauthorizedImport || e
                is ModuleTooLarge || e is ModuleParseError || e is FunctionNotFound)
                ==> r.response.fuel_consumed == 0 && r.response.memory_used_bytes == 0,
            // fuel termination: an exhausted guest spent the whole charge:
            r.failure matches Some(e) && e is FuelExhausted ==> r.response.fuel_consumed
                == self.config.fuel_limit,
            r.response.fuel_consumed <= self.config.fuel_limit,
    {
        let start = monotonic_now();
        if module_bytes.len() as u64 > self.config.max_module_bytes {
            return outcome_failure(ExecError::ModuleTooLarge, elapsed_millis(&start), 0, 0);
        }
        let loaded = match load_module(&self.engine, module_bytes.as_slice()) {
            Ok(m) => m,
            Err(detail) => {
                return outcome_failure(
                    ExecError::ModuleParseError { detail },
                    elapsed_millis(&start),
                    0,
                    0,
                );
            },
        };
        let module_import_list = module_imports(&loaded);
        match check_imports(&module_import_list) {
            Ok(()) => (),
            Err(e) => {
                return outcome_failure(e, elapsed_millis(&start), 0, 0);
            },
        }
        let wasi = new_wasi_ctx();
        let limits = new_store_limits(
            self.config.max_memory_bytes(),
            self.config.max_table_elements as usize,
        );
        let mut session = match start_session(
            &loaded,
            HostState { wasi, limits },
            self.config.fuel_limit,
        ) {
            Ok(s) => s,
            Err(detail) => {
                return outcome_failure(
                    ExecError::InstantiateFailed { detail },
                    elapsed_millis(&start),
                    0,
                    0,
                );
            },
        };
        if !select_function(&mut session, function_name) {
            return outcome_failure(
                ExecError::FunctionNotFound { function_name: function_name.to_owned() },
                elapsed_millis(&start),
                0,
                0,
            );
        }
        let param_types = function_param_types(&mut session);
        let result_types = function_result_types(&mut session);
        let args = match marshal_in(params, &param_types) {
            Ok(a) => a,
            Err(e) => {
                return outcome_failure(e, elapsed_millis(&start), 0, 0);
            },
        };
        let initial_pages: u64 = match memory_size_pages(&session) {
            Some(p) => p,
            None => 0,
        };
        let engine_args = engine_vals_of(&args);
        let (call_result, remaining) = invoke_selected(
            &mut session,
            &engine_args,
            result_types.len(),
        );
        let execution_time_ms = elapsed_millis(&start);
        let fuel_consumed: u64 = if remaining > self.config.fuel_limit {
            0
        } else {
            self.config.fuel_limit - remaining
        };
        let final_pages: u64 = match memory_size_pages(&session) {
            Some(p) => p,
            None => 0,
        };
        let memory_used_bytes = pages_delta_bytes(initial_pages, final_pages);
        match call_result {
            Err(f) => {
                let e = match f {
                    CallFailure::FuelExhausted => ExecError::FuelExhausted,
                    CallFailure::Interrupted => ExecError::Interrupted,
                    CallFailure::Trap { detail } => ExecError::Trap { detail },
                    CallFailure::Other { detail } => ExecError::ExecutionError { detail },
                };
                outcome_failure(e, execution_time_ms, memory_used_bytes, fuel_consumed)
            },
            Ok(outs) => {
                let read_back = read_engine_vals(&outs);
                match marshal_out(&read_back) {
                    Err(e) => outcome_failure(
                        e,
                        execution_time_ms,
                        memory_used_bytes,
                        fuel_consumed,
                    ),
                    Ok(json) => {
                        let response = ExecuteResponse::success(
                            json,
                            execution_time_ms,
                            memory_used_bytes,
                            fuel_consumed,
                        );
                        ExecOutcome { response, failure: None }
                    },
                }
            },
        }
    }
}

} // verus!
