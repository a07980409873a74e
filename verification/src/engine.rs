//! The trusted boundary around the Wasm engine.
//!
//! Everything here either declares an outside type or wraps calls into
//! the engine (or the clock) behind a contract Verus believes.  The
//! logic that decides anything — containment, whitelisting,
//! marshalling, admission, classification — stands elsewhere in this
//! crate and is verified; these wrappers only carry opaque handles and
//! convert between outside values and the crate's own plain values.
//!
//! The boundary is shaped so that no call can hit one of wasmtime's
//! ownership panics.  A store and every handle derived from it — the
//! instance, the exported memory, the selected function — live inside
//! one `Session` with private fields, created from a `LoadedModule`
//! that carries the engine its module was parsed with.  A caller can
//! never hand a session a handle from another store, nor a store built
//! on a foreign engine, because no such handle or store ever leaves
//! this module.

use vstd::prelude::*;

use crate::imports::ImportRef;
use crate::marshal::{WasmType, WasmVal};

verus! {

#[verifier::external_type_specification]
#[verifier::external_body]
pub struct ExEngine(wasmtime::Engine);

#[verifier::external_type_specification]
#[verifier::external_body]
pub struct ExModule(wasmtime::Module);

#[verifier::external_type_specification]
#[verifier::external_body]
#[verifier::reject_recursive_types(T)]
pub struct ExStore<T: 'static>(wasmtime::Store<T>);

#[verifier::external_type_specification]
#[verifier::external_body]
pub struct ExInstance(wasmtime::Instance);

#[verifier::external_type_specification]
#[verifier::external_body]
pub struct ExFunc(wasmtime::Func);

#[verifier::external_type_specification]
#[verifier::external_body]
pub struct ExMemory(wasmtime::Memory);

#[verifier::external_type_specification]
#[verifier::external_body]
pub struct ExVal(wasmtime::Val);

#[verifier::external_type_specification]
#[verifier::external_body]
pub struct ExWasmError(wasmtime::Error);

#[verifier::external_type_specification]
#[verifier::external_body]
pub struct ExStoreLimits(wasmtime::StoreLimits);

#[verifier::external_type_specification]
#[verifier::external_body]
pub struct ExWasiCtx(wasi_common::WasiCtx);

#[verifier::external_type_specification]
#[verifier::external_body]
pub struct ExInstant(std::time::Instant);

/// A hardened engine.  The field is private: every engine in the
/// library comes from `new_secure_engine`, so fuel metering and epoch
/// interruption are always on and async support is always off — the
/// conditions under which the session calls below cannot panic.
pub struct SecureEngine {
    engine: wasmtime::Engine,
}

/// A parsed module together with the engine that parsed it.  The fields
/// are private, so a module can only ever be instantiated on the engine
/// it belongs to.
pub struct LoadedModule {
    engine: wasmtime::Engine,
    module: wasmtime::Module,
}

/// Everything one store carries: the WASI context of the guest and the
/// resource limits the engine consults on every growth request.  Owned
/// by the store, so the limiter lives exactly as long as the store.
pub struct HostState {
    pub wasi: wasi_common::WasiCtx,
    pub limits: wasmtime::StoreLimits,
}

/// One instantiated module inside its own store: the store, the
/// instance, the exported memory (where one exists) and the currently
/// selected function.  The fields are private and every handle was
/// created from this very store, so the ownership panics of wasmtime's
/// accessors cannot fire.
pub struct Session {
    store: wasmtime::Store<HostState>,
    instance: wasmtime::Instance,
    memory: Option<wasmtime::Memory>,
    func: Option<wasmtime::Func>,
}

impl Session {
    /// Whether a function has been selected for this session.
    pub closed spec fn has_function(self) -> bool {
        self.func is Some
    }
}

/// How one invocation failed inside the engine.
pub enum CallFailure {
    /// The guest consumed all of its fuel.
    FuelExhausted,
    /// The epoch deadline interrupted the guest.
    Interrupted,
    /// The guest trapped; the detail is the engine's description.
    Trap { detail: String },
    /// Any other engine-reported failure.
    Other { detail: String },
}

/// Relies on `wasmtime::Engine::new` over a `wasmtime::Config` with fuel
/// metering and epoch interruption on, the given stack cap and
/// linear-memory address reservation, backtrace details on, and
/// multi-memory, 64-bit memory, threads, reference types, SIMD
/// (standard and relaxed) and bulk memory all off.
#[verifier::external_body]
pub fn new_secure_engine(max_stack_bytes: usize, memory_reservation_bytes: u64) -> (r: Result<
    SecureEngine,
    String,
>) {
    let mut c = wasmtime::Config::new();
    c.wasm_backtrace_details(wasmtime::WasmBacktraceDetails::Enable);
    c.consume_fuel(true);
    c.epoch_interruption(true);
    c.max_wasm_stack(max_stack_bytes);
    c.memory_reservation(memory_reservation_bytes);
    c.memory_reservation_for_growth(memory_reservation_bytes);
    c.wasm_multi_memory(false);
    c.wasm_memory64(false);
    c.wasm_threads(false);
    c.wasm_reference_types(false);
    c.wasm_simd(false);
    c.wasm_relaxed_simd(false);
    c.wasm_bulk_memory(false);
    Ok(SecureEngine { engine: wasmtime::Engine::new(&c).map_err(|e| e.to_string())? })
}

/// Relies on `wasmtime::Engine::increment_epoch`: advances the engine's
/// epoch by one (an atomic increment, safe from any thread), which
/// interrupts every store whose deadline has passed at its next check.
#[verifier::external_body]
pub fn increment_epoch(engine: &SecureEngine) {
    engine.engine.increment_epoch();
}

/// Relies on `wasmtime::Module::from_binary`: parses and validates a
/// Wasm binary; `Err` on anything that is not a well-formed module for
/// this engine.  The result keeps its engine, so it can only ever be
/// instantiated there.
#[verifier::external_body]
pub fn load_module(engine: &SecureEngine, bytes: &[u8]) -> (r: Result<LoadedModule, String>) {
    match wasmtime::Module::from_binary(&engine.engine, bytes) {
        Ok(module) => Ok(LoadedModule { engine: engine.engine.clone(), module }),
        Err(e) => Err(e.to_string()),
    }
}

/// Relies on `wasmtime::Module::imports`: hands out the module/name
/// pair of every import the module declares, in declaration order.
#[verifier::external_body]
pub fn module_imports(loaded: &LoadedModule) -> (r: Vec<ImportRef>) {
    loaded.module.imports().map(|i| ImportRef {
        import_module: i.module().to_string(),
        import_name: i.name().to_string(),
    }).collect()
}

/// Relies on `wasi_common::sync::WasiCtxBuilder`: a WASI context that
/// inherits the host's stdio and grants no filesystem, environment or
/// network capability.  As in the builder's source, the context keeps
/// the builder's stock clock and randomness implementations, so a guest
/// can read the host clock through WASI; nothing narrower is claimed.
#[verifier::external_body]
pub fn new_wasi_ctx() -> (r: wasi_common::WasiCtx) {
    wasi_common::sync::WasiCtxBuilder::new().inherit_stdio().build()
}

/// Relies on `wasmtime::StoreLimitsBuilder`: the returned limits deny
/// any linear-memory growth beyond `memory_bytes` bytes and any table
/// growth beyond `table_elements` elements; a denial surfaces as a
/// growth failure inside the guest and never ends the host.
#[verifier::external_body]
pub fn new_store_limits(memory_bytes: usize, table_elements: usize) -> (r: wasmtime::StoreLimits) {
    wasmtime::StoreLimitsBuilder::new().memory_size(memory_bytes).table_elements(
        table_elements,
    ).build()
}

/// Relies on `wasmtime::Store::new` and `Store::limiter`, `set_fuel`,
/// `set_epoch_deadline`, `wasmtime::Linker::new`,
/// `wasi_common::sync::add_to_linker`, `Linker::instantiate` and
/// `Instance::get_memory`: one store owning `host`, with the store's
/// own limits installed as its resource limiter (dropped with the
/// store), exactly `fuel` units charged, the epoch deadline one tick
/// ahead, the module instantiated through a linker exposing only the
/// WASI preview-1 surface (and its predecessor), and the exported
/// memory named `memory` looked up.  Store, linker and module all come
/// from the one engine inside `loaded`, so the ownership panics of
/// `instantiate` cannot fire; `set_fuel` cannot fail because every
/// `SecureEngine` meters fuel.
#[verifier::external_body]
pub fn start_session(loaded: &LoadedModule, host: HostState, fuel: u64) -> (r: Result<
    Session,
    String,
>)
    ensures
        r matches Ok(s) ==> !s.has_function(),
{
    let mut linker: wasmtime::Linker<HostState> = wasmtime::Linker::new(&loaded.engine);
    wasi_common::sync::add_to_linker(&mut linker, |h| &mut h.wasi).map_err(|e| e.to_string())?;
    let mut store = wasmtime::Store::new(&loaded.engine, host);
    store.limiter(|h| &mut h.limits);
    store.set_fuel(fuel).map_err(|e| e.to_string())?;
    store.set_epoch_deadline(1);
    let instance = linker.instantiate(&mut store, &loaded.module).map_err(|e| e.to_string())?;
    let memory = instance.get_memory(&mut store, "memory");
    Ok(Session { store, instance, memory, func: None })
}

/// Relies on `wasmtime::Instance::get_func`: selects the exported
/// function of that name, or reports that the export is missing or not
/// a function.  The instance belongs to the session's own store.
#[verifier::external_body]
pub fn select_function(session: &mut Session, name: &str) -> (found: bool)
    ensures
        found == final(session).has_function(),
{
    session.func = session.instance.get_func(&mut session.store, name);
    session.func.is_some()
}

/// Relies on `wasmtime::Func::ty`: the declared parameter types of the
/// selected function, with each type outside the four numeric ones read
/// as unsupported.
#[verifier::external_body]
pub fn function_param_types(session: &mut Session) -> (r: Vec<WasmType>)
    requires
        old(session).has_function(),
    ensures
        final(session).has_function(),
{
    session.func.as_ref().unwrap().ty(&session.store).params().map(|t| match t {
        wasmtime::ValType::I32 => WasmType::I32,
        wasmtime::ValType::I64 => WasmType::I64,
        wasmtime::ValType::F32 => WasmType::F32,
        wasmtime::ValType::F64 => WasmType::F64,
        _ => WasmType::Unsupported,
    }).collect()
}

/// Relies on `wasmtime::Func::ty`: the declared result types of the
/// selected function, read as `function_param_types` reads parameters.
#[verifier::external_body]
pub fn function_result_types(session: &mut Session) -> (r: Vec<WasmType>)
    requires
        old(session).has_function(),
    ensures
        final(session).has_function(),
{
    session.func.as_ref().unwrap().ty(&session.store).results().map(|t| match t {
        wasmtime::ValType::I32 => WasmType::I32,
        wasmtime::ValType::I64 => WasmType::I64,
        wasmtime::ValType::F32 => WasmType::F32,
        wasmtime::ValType::F64 => WasmType::F64,
        _ => WasmType::Unsupported,
    }).collect()
}

/// Relies on `wasmtime::Memory::size`: the current size in pages of the
/// session's exported memory, or `None` where the module exports none.
#[verifier::external_body]
pub fn memory_size_pages(session: &Session) -> (r: Option<u64>) {
    session.memory.as_ref().map(|m| m.size(&session.store))
}

/// Converts the crate's values into engine values; floats travel as the
/// raw bits `wasmtime::Val` itself stores.
#[verifier::external_body]
pub fn engine_vals_of(args: &Vec<WasmVal>) -> (r: Vec<wasmtime::Val>)
    ensures
        r@.len() == args@.len(),
{
    args.iter().map(|a| match a {
        WasmVal::I32(v) => wasmtime::Val::I32(*v),
        WasmVal::I64(v) => wasmtime::Val::I64(*v),
        WasmVal::F32Bits(b) => wasmtime::Val::F32(*b),
        WasmVal::F64Bits(b) => wasmtime::Val::F64(*b),
    }).collect()
}

/// Converts engine values back, one for one; a value outside the four
/// numeric types reads as `None`.
#[verifier::external_body]
pub fn read_engine_vals(vals: &Vec<wasmtime::Val>) -> (r: Vec<Option<WasmVal>>)
    ensures
        r@.len() == vals@.len(),
{
    vals.iter().map(|v| match v {
        wasmtime::Val::I32(i) => Some(WasmVal::I32(*i)),
        wasmtime::Val::I64(i) => Some(WasmVal::I64(*i)),
        wasmtime::Val::F32(b) => Some(WasmVal::F32Bits(*b)),
        wasmtime::Val::F64(b) => Some(WasmVal::F64Bits(*b)),
        _ => None,
    }).collect()
}

/// Relies on `wasmtime::Func::call`, `Store::get_fuel` and
/// `Error::downcast_ref::<wasmtime::Trap>`: runs the selected function
/// on the given arguments and hands back its `n_results` results (a
/// type or count mismatch is an error, not a panic) together with the
/// fuel still unconsumed, with any failure classified by its trap —
/// out of fuel and epoch interruption have variants of their own.  The
/// function belongs to the session's own store, which meters fuel, so
/// the call cannot hit an ownership panic and cannot run unmetered.
/// The zero-fuel clause is what the engine's source shows: the
/// out-of-fuel trap is raised only after refuelling finds the store's
/// remaining fuel at zero, and the trap unwinds without adding any.
#[verifier::external_body]
pub fn invoke_selected(
    session: &mut Session,
    args: &Vec<wasmtime::Val>,
    n_results: usize,
) -> (r: (Result<Vec<wasmtime::Val>, CallFailure>, u64))
    requires
        old(session).has_function(),
    ensures
        r.0 matches Ok(outs) ==> outs@.len() == n_results as int,
        r.0 matches Err(f) && f is FuelExhausted ==> r.1 == 0,
{
    let func = *session.func.as_ref().unwrap();
    let mut results = vec![wasmtime::Val::I32(0); n_results];
    let call = func.call(&mut session.store, args.as_slice(), &mut results);
    let remaining = session.store.get_fuel().unwrap_or(0);
    let outcome = match call {
        Ok(()) => Ok(results),
        Err(e) => Err(match e.downcast_ref::<wasmtime::Trap>() {
            Some(wasmtime::Trap::OutOfFuel) => CallFailure::FuelExhausted,
            Some(wasmtime::Trap::Interrupt) => CallFailure::Interrupted,
            Some(t) => CallFailure::Trap { detail: t.to_string() },
            None => CallFailure::Other { detail: e.to_string() },
        }),
    };
    (outcome, remaining)
}

/// Relies on `std::time::Instant::now`: a monotonic timestamp.
#[verifier::external_body]
pub fn monotonic_now() -> (r: std::time::Instant) {
    std::time::Instant::now()
}

/// Relies on `std::time::Instant::elapsed`: whole milliseconds since
/// `start`, clamped at the counter's ceiling.
#[verifier::external_body]
pub fn elapsed_millis(start: &std::time::Instant) -> (r: u64) {
    u64::try_from(start.elapsed().as_millis()).unwrap_or(u64::MAX)
}

} // verus!
