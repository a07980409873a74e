use extension_runtime::config::RuntimeConfig;
use extension_runtime::errors::ExecError;
use extension_runtime::executor::Executor;
use extension_runtime::gate::ExecOutcome;
use extension_runtime::marshal::{JsonNum, JsonOut, JsonParam, JsonScalar, ParamsValue};

fn num_i(v: i64) -> JsonParam {
    JsonParam::Num(JsonNum {
        int_val: Some(v),
        f32_bits: (v as f32).to_bits(),
        f64_bits: (v as f64).to_bits(),
    })
}

fn num_f(v: f64) -> JsonParam {
    JsonParam::Num(JsonNum {
        int_val: None,
        f32_bits: (v as f32).to_bits(),
        f64_bits: v.to_bits(),
    })
}

fn run(wat_text: &str, func: &str, params: Vec<JsonParam>) -> ExecOutcome {
    let bytes = wat::parse_str(wat_text).expect("wat should assemble");
    let ex = Executor::new(RuntimeConfig::default()).expect("engine should build");
    ex.execute(func, &ParamsValue::Array(params), &bytes)
}

const ADD_WAT: &str = r#"(module
  (func (export "add") (param i32 i32) (result i32)
    local.get 0
    local.get 1
    i32.add))"#;

#[test]
fn add_two_and_three_yields_five() {
    let out = run(ADD_WAT, "add", vec![num_i(2), num_i(3)]);
    assert!(out.response.success);
    assert!(out.failure.is_none());
    assert_eq!(out.response.result, Some(JsonOut::Scalar(JsonScalar::Int(5))));
    assert!(out.response.error.is_none());
    assert!(out.response.fuel_consumed > 0);
    assert!(out.response.fuel_consumed <= 1_000_000);
    assert_eq!(out.response.memory_used_bytes, 0);
}

#[test]
fn add_round_trip_negative_values() {
    let out = run(ADD_WAT, "add", vec![num_i(-7), num_i(5)]);
    assert_eq!(out.response.result, Some(JsonOut::Scalar(JsonScalar::Int(-2))));
    let out = run(ADD_WAT, "add", vec![num_i(-2147483648), num_i(2147483647)]);
    assert_eq!(out.response.result, Some(JsonOut::Scalar(JsonScalar::Int(-1))));
}

#[test]
fn division_by_zero_traps() {
    let wat_text = r#"(module
      (func (export "div") (param i32 i32) (result i32)
        local.get 0
        local.get 1
        i32.div_s))"#;
    let out = run(wat_text, "div", vec![num_i(1), num_i(0)]);
    assert!(!out.response.success);
    assert!(matches!(out.failure, Some(ExecError::Trap { .. })));
    assert_eq!(
        out.response.error.as_deref(),
        Some("wasm trap: integer divide by zero")
    );
}

#[test]
fn infinite_loop_exhausts_all_fuel() {
    let wat_text = r#"(module
      (func (export "spin") (local i32)
        (loop $l
          local.get 0
          i32.const 1
          i32.add
          local.set 0
          br $l)))"#;
    let out = run(wat_text, "spin", vec![]);
    assert!(!out.response.success);
    assert!(matches!(out.failure, Some(ExecError::FuelExhausted)));
    assert_eq!(out.response.error.as_deref(), Some("Fuel exhausted"));
    assert_eq!(out.response.fuel_consumed, 1_000_000);
}

#[test]
fn memory_growth_beyond_cap_is_denied() {
    let wat_text = r#"(module
      (memory (export "memory") 1)
      (func (export "grow") (param i32) (result i32)
        local.get 0
        memory.grow))"#;
    let out = run(wat_text, "grow", vec![num_i(200)]);
    assert_eq!(out.response.error, None);
    assert!(out.response.success);
    assert_eq!(out.response.result, Some(JsonOut::Scalar(JsonScalar::Int(-1))));
    assert_eq!(out.response.memory_used_bytes, 0);
}

#[test]
fn memory_growth_within_cap_is_measured() {
    let wat_text = r#"(module
      (memory (export "memory") 1)
      (func (export "grow") (param i32) (result i32)
        local.get 0
        memory.grow))"#;
    let out = run(wat_text, "grow", vec![num_i(10)]);
    assert_eq!(out.response.error, None);
    assert!(out.response.success);
    assert_eq!(out.response.result, Some(JsonOut::Scalar(JsonScalar::Int(1))));
    assert_eq!(out.response.memory_used_bytes, 10 * 65536);
}

#[test]
fn instantiation_needing_too_much_memory_fails_cleanly() {
    let wat_text = "(module (memory 200))";
    let bytes = wat::parse_str(wat_text).unwrap();
    let ex = Executor::new(RuntimeConfig::default()).unwrap();
    let out = ex.execute("anything", &ParamsValue::Array(vec![]), &bytes);
    assert!(!out.response.success);
    assert!(matches!(out.failure, Some(ExecError::InstantiateFailed { .. })));
}

#[test]
fn env_fd_write_import_is_refused_before_instantiation() {
    let wat_text = r#"(module
      (import "env" "fd_write" (func $w (param i32)))
      (func (export "go") (result i32) i32.const 1))"#;
    let out = run(wat_text, "go", vec![]);
    assert!(!out.response.success);
    assert!(matches!(out.failure, Some(ExecError::UnauthorizedImport { .. })));
    assert_eq!(
        out.response.error.as_deref(),
        Some("Unauthorized import module: env.fd_write")
    );
}

#[test]
fn unknown_import_module_is_refused() {
    let wat_text = r#"(module
      (import "host" "anything" (func $h))
      (func (export "go") (result i32) i32.const 1))"#;
    let out = run(wat_text, "go", vec![]);
    assert_eq!(
        out.response.error.as_deref(),
        Some("Unauthorized import module: host.anything")
    );
}

#[test]
fn wasi_import_is_allowed() {
    let wat_text = r#"(module
      (import "wasi_snapshot_preview1" "proc_exit" (func $pe (param i32)))
      (func (export "ok") (result i32) i32.const 7))"#;
    let out = run(wat_text, "ok", vec![]);
    assert!(out.response.success);
    assert_eq!(out.response.result, Some(JsonOut::Scalar(JsonScalar::Int(7))));
}

#[test]
fn missing_function_is_reported() {
    let out = run(ADD_WAT, "mul3", vec![num_i(1), num_i(2)]);
    assert!(matches!(out.failure, Some(ExecError::FunctionNotFound { .. })));
    assert_eq!(out.response.error.as_deref(), Some("Function not found: mul3"));
}

#[test]
fn arity_mismatch_never_enters_the_guest() {
    let out = run(ADD_WAT, "add", vec![num_i(1)]);
    assert!(!out.response.success);
    assert_eq!(
        out.response.error.as_deref(),
        Some("Invalid parameters: arity mismatch")
    );
    assert_eq!(out.response.fuel_consumed, 0);
    let wat_unary = r#"(module
      (func (export "neg") (param i32) (result i32)
        i32.const 0
        local.get 0
        i32.sub))"#;
    let out = run(wat_unary, "neg", vec![num_i(1), num_i(2)]);
    assert_eq!(
        out.response.error.as_deref(),
        Some("Invalid parameters: arity mismatch")
    );
    assert_eq!(out.response.fuel_consumed, 0);
}

#[test]
fn params_must_be_an_array() {
    let bytes = wat::parse_str(ADD_WAT).unwrap();
    let ex = Executor::new(RuntimeConfig::default()).unwrap();
    let out = ex.execute("add", &ParamsValue::NotArray, &bytes);
    assert_eq!(
        out.response.error.as_deref(),
        Some("Invalid parameters: not an array")
    );
}

#[test]
fn out_of_range_i32_parameter_is_refused() {
    let out = run(ADD_WAT, "add", vec![num_i(2147483648), num_i(0)]);
    assert_eq!(out.response.error.as_deref(), Some("Invalid parameters: not i32"));
    let out = run(ADD_WAT, "add", vec![num_f(2.5), num_i(0)]);
    assert_eq!(out.response.error.as_deref(), Some("Invalid parameters: not i32"));
}

#[test]
fn oversize_module_is_refused_without_parsing() {
    let bytes = vec![0u8; 10 * 1024 * 1024 + 1];
    let ex = Executor::new(RuntimeConfig::default()).unwrap();
    let out = ex.execute("f", &ParamsValue::Array(vec![]), &bytes);
    assert!(matches!(out.failure, Some(ExecError::ModuleTooLarge)));
    assert_eq!(out.response.error.as_deref(), Some("Module too large"));
}

#[test]
fn garbage_bytes_are_a_parse_error() {
    let bytes = b"not a wasm module".to_vec();
    let ex = Executor::new(RuntimeConfig::default()).unwrap();
    let out = ex.execute("f", &ParamsValue::Array(vec![]), &bytes);
    assert!(matches!(out.failure, Some(ExecError::ModuleParseError { .. })));
    assert!(!out.response.success);
}

#[test]
fn f64_addition_round_trips_through_bits() {
    let wat_text = r#"(module
      (func (export "fadd") (param f64 f64) (result f64)
        local.get 0
        local.get 1
        f64.add))"#;
    let out = run(wat_text, "fadd", vec![num_f(1.5), num_f(2.25)]);
    assert!(out.response.success);
    assert_eq!(
        out.response.result,
        Some(JsonOut::Scalar(JsonScalar::F64Bits(3.75f64.to_bits())))
    );
}

#[test]
fn non_finite_float_result_is_refused() {
    let wat_text = r#"(module
      (func (export "inf") (result f32)
        f32.const inf))"#;
    let out = run(wat_text, "inf", vec![]);
    assert!(!out.response.success);
    assert_eq!(out.response.error.as_deref(), Some("Invalid result: non-finite"));
}

#[test]
fn multiple_results_become_an_array() {
    let wat_text = r#"(module
      (func (export "two") (result i32 i32)
        i32.const 4
        i32.const 9))"#;
    let out = run(wat_text, "two", vec![]);
    assert!(out.response.success);
    assert_eq!(
        out.response.result,
        Some(JsonOut::Array(vec![JsonScalar::Int(4), JsonScalar::Int(9)]))
    );
}

#[test]
fn zero_results_become_null() {
    let wat_text = r#"(module (func (export "nop")))"#;
    let out = run(wat_text, "nop", vec![]);
    assert!(out.response.success);
    assert_eq!(out.response.result, Some(JsonOut::Null));
}

#[test]
fn i64_values_round_trip() {
    let wat_text = r#"(module
      (func (export "id") (param i64) (result i64)
        local.get 0))"#;
    let out = run(wat_text, "id", vec![num_i(9_007_199_254_740_993)]);
    assert_eq!(
        out.response.result,
        Some(JsonOut::Scalar(JsonScalar::Int(9_007_199_254_740_993)))
    );
}
