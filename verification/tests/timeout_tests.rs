use std::sync::Arc;

use extension_runtime::config::RuntimeConfig;
use extension_runtime::errors::ExecError;
use extension_runtime::executor::Executor;
use extension_runtime::marshal::{JsonNum, JsonOut, JsonParam, JsonScalar, ParamsValue};

const SPIN_WAT: &str = r#"(module
  (func (export "spin") (local i32)
    (loop $l
      local.get 0
      i32.const 1
      i32.add
      local.set 0
      br $l)))"#;

#[test]
fn epoch_tick_interrupts_an_overdue_guest() {
    let bytes = wat::parse_str(SPIN_WAT).unwrap();
    // Enough fuel that the guest would spin far past the deadline; the
    // epoch tick must stop it.
    let mut config = RuntimeConfig::default();
    config.fuel_limit = u64::MAX;
    let ex = Arc::new(Executor::new(config).unwrap());
    let rt = tokio::runtime::Builder::new_multi_thread()
        .worker_threads(2)
        .enable_time()
        .build()
        .unwrap();
    let ticker = ex.clone();
    let out = rt.block_on(async move {
        let worker = ex.clone();
        let task = tokio::task::spawn_blocking(move || {
            worker.execute("spin", &ParamsValue::Array(vec![]), &bytes)
        });
        tokio::time::sleep(std::time::Duration::from_millis(300)).await;
        ticker.tick_epoch();
        task.await.expect("executor task should not panic")
    });
    assert!(!out.response.success);
    assert!(matches!(out.failure, Some(ExecError::Interrupted)));
    assert_eq!(out.response.error.as_deref(), Some("Execution interrupted"));
}

#[test]
fn denied_growth_leaves_later_invocations_unaffected() {
    let grow_wat = r#"(module
      (memory (export "memory") 1)
      (func (export "grow") (param i32) (result i32)
        local.get 0
        memory.grow))"#;
    let add_wat = r#"(module
      (func (export "add") (param i32 i32) (result i32)
        local.get 0
        local.get 1
        i32.add))"#;
    let ex = Executor::new(RuntimeConfig::default()).unwrap();
    let grow_bytes = wat::parse_str(grow_wat).unwrap();
    let num = |v: i64| {
        JsonParam::Num(JsonNum {
            int_val: Some(v),
            f32_bits: (v as f32).to_bits(),
            f64_bits: (v as f64).to_bits(),
        })
    };
    let denied = ex.execute("grow", &ParamsValue::Array(vec![num(1000)]), &grow_bytes);
    assert_eq!(
        denied.response.result,
        Some(JsonOut::Scalar(JsonScalar::Int(-1)))
    );
    // The same engine keeps serving other modules normally.
    let add_bytes = wat::parse_str(add_wat).unwrap();
    let ok = ex.execute("add", &ParamsValue::Array(vec![num(20), num(22)]), &add_bytes);
    assert!(ok.response.success);
    assert_eq!(ok.response.result, Some(JsonOut::Scalar(JsonScalar::Int(42))));
}
