[package]
name = "extension_runtime"
version = "0.1.0"
edition = "2021"
publish = false

[dependencies]
wasmtime = "=46.0.3"
wasi-common = "=46.0.3"
serde = { version = "=1.0.229", features = ["derive"] }
serde_json = "=1.0.151"
tokio = { version = "=1.53.2", features = ["macros", "rt-multi-thread", "time", "sync"] }
warp = { version = "=0.4.3", features = ["server"] }

[dev-dependencies]
wat = "=1.261.0"
