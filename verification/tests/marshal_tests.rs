use extension_runtime::errors::ExecError;
use extension_runtime::imports::{check_imports, ImportRef};
use extension_runtime::marshal::{
    marshal_in, marshal_out, JsonNum, JsonOut, JsonParam, JsonScalar, ParamsValue, WasmType,
    WasmVal,
};

fn num_i(v: i64) -> JsonParam {
    JsonParam::Num(JsonNum {
        int_val: Some(v),
        f32_bits: (v as f32).to_bits(),
        f64_bits: (v as f64).to_bits(),
    })
}

#[test]
fn marshal_in_builds_the_typed_vector() {
    let params = ParamsValue::Array(vec![num_i(2), num_i(3)]);
    let got = marshal_in(&params, &vec![WasmType::I32, WasmType::I32]).unwrap();
    assert_eq!(got, vec![WasmVal::I32(2), WasmVal::I32(3)]);
}

#[test]
fn marshal_in_distinguishes_widths() {
    let params = ParamsValue::Array(vec![num_i(5_000_000_000)]);
    let got = marshal_in(&params, &vec![WasmType::I64]).unwrap();
    assert_eq!(got, vec![WasmVal::I64(5_000_000_000)]);
    let err = marshal_in(&params, &vec![WasmType::I32]).unwrap_err();
    assert_eq!(err.message(), "Invalid parameters: not i32");
}

#[test]
fn marshal_in_takes_float_bits_by_declared_type() {
    let n = JsonParam::Num(JsonNum {
        int_val: None,
        f32_bits: 1.5f32.to_bits(),
        f64_bits: 1.5f64.to_bits(),
    });
    let params = ParamsValue::Array(vec![n]);
    assert_eq!(
        marshal_in(&params, &vec![WasmType::F32]).unwrap(),
        vec![WasmVal::F32Bits(1.5f32.to_bits())]
    );
    assert_eq!(
        marshal_in(&params, &vec![WasmType::F64]).unwrap(),
        vec![WasmVal::F64Bits(1.5f64.to_bits())]
    );
}

#[test]
fn marshal_in_refuses_non_numbers_and_odd_types() {
    let params = ParamsValue::Array(vec![JsonParam::Other]);
    let err = marshal_in(&params, &vec![WasmType::I32]).unwrap_err();
    assert_eq!(err.message(), "Invalid parameters: unsupported type");
    let params = ParamsValue::Array(vec![num_i(1)]);
    let err = marshal_in(&params, &vec![WasmType::Unsupported]).unwrap_err();
    assert_eq!(err.message(), "Invalid parameters: unsupported type");
}

#[test]
fn marshal_in_reports_arity_before_elements() {
    let params = ParamsValue::Array(vec![JsonParam::Other]);
    let err = marshal_in(&params, &vec![]).unwrap_err();
    assert_eq!(err.message(), "Invalid parameters: arity mismatch");
}

#[test]
fn marshal_out_shapes_by_result_count() {
    assert_eq!(marshal_out(&vec![]).unwrap(), JsonOut::Null);
    assert_eq!(
        marshal_out(&vec![Some(WasmVal::I32(5))]).unwrap(),
        JsonOut::Scalar(JsonScalar::Int(5))
    );
    assert_eq!(
        marshal_out(&vec![Some(WasmVal::I64(1)), Some(WasmVal::I32(2))]).unwrap(),
        JsonOut::Array(vec![JsonScalar::Int(1), JsonScalar::Int(2)])
    );
}

#[test]
fn marshal_out_refuses_non_finite_floats() {
    let err = marshal_out(&vec![Some(WasmVal::F32Bits(f32::NAN.to_bits()))]).unwrap_err();
    assert_eq!(err.message(), "Invalid result: non-finite");
    let err = marshal_out(&vec![Some(WasmVal::F64Bits(f64::INFINITY.to_bits()))]).unwrap_err();
    assert_eq!(err.message(), "Invalid result: non-finite");
    let ok = marshal_out(&vec![Some(WasmVal::F64Bits(2.5f64.to_bits()))]).unwrap();
    assert_eq!(ok, JsonOut::Scalar(JsonScalar::F64Bits(2.5f64.to_bits())));
}

#[test]
fn marshal_out_refuses_unsupported_result_types() {
    let err = marshal_out(&vec![None]).unwrap_err();
    assert_eq!(err.message(), "Invalid result: unsupported type");
}

fn import(m: &str, n: &str) -> ImportRef {
    ImportRef {
        import_module: m.to_string(),
        import_name: n.to_string(),
    }
}

#[test]
fn whitelist_accepts_wasi_and_env_memory_table() {
    let imports = vec![
        import("wasi_snapshot_preview1", "fd_write"),
        import("wasi_snapshot_preview1", "proc_exit"),
        import("env", "memory"),
        import("env", "table"),
    ];
    assert!(check_imports(&imports).is_ok());
    assert!(check_imports(&vec![]).is_ok());
}

#[test]
fn whitelist_refuses_the_first_offender() {
    let imports = vec![
        import("env", "memory"),
        import("env", "print"),
        import("other", "x"),
    ];
    let e = check_imports(&imports).unwrap_err();
    assert!(matches!(e, ExecError::UnauthorizedImport { .. }));
    assert_eq!(e.message(), "Unauthorized import module: env.print");
}

#[test]
fn whitelist_refuses_env_functions() {
    let e = check_imports(&vec![import("env", "fd_write")]).unwrap_err();
    assert_eq!(e.message(), "Unauthorized import module: env.fd_write");
}
