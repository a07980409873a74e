//! A sandboxed WebAssembly execution service core.
//!
//! The library holds the verified logic of the service: configuration,
//! path containment, import whitelisting, parameter marshalling, the
//! admission counter, the metrics registry, and the executor that drives
//! a Wasm engine through trusted wrappers.

pub mod admission;
pub mod config;
pub mod engine;
pub mod errors;
pub mod executor;
pub mod gate;
pub mod imports;
pub mod ingest;
pub mod marshal;
pub mod metrics;
pub mod pathcheck;
pub mod response;
