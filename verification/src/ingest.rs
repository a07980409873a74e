//! Recorded interface of the companion event-ingestion service.
//!
//! That service (Kafka in, ClickHouse and Redis out) is a separate
//! program around this crate's scope; only the shape of its
//! configuration and its transformer handle are kept here, so that
//! callers of both services share one vocabulary.

use vstd::prelude::*;

verus! {

/// Connection and batching settings of the ingestion service, as its
/// environment provides them.
#[derive(Clone, Debug)]
pub struct Config {
    pub kafka_brokers: String,
    pub kafka_group_id: String,
    pub kafka_topics: Vec<String>,
    pub clickhouse_url: String,
    pub clickhouse_user: String,
    pub clickhouse_password: String,
    pub clickhouse_database: String,
    pub redis_url: String,
    pub batch_size: usize,
    pub flush_interval_ms: u64,
}

impl Config {
    /// A configuration is usable when its batching knobs are positive:
    /// a zero batch size would flush forever, a zero interval spin.
    pub open spec fn wf(self) -> bool {
        self.batch_size > 0 && self.flush_interval_ms > 0
    }
}

/// The stateless transformer of the ingestion service: it shapes raw
/// events into processed records, holding no state of its own.
pub struct DataTransformer {}

impl DataTransformer {
    pub fn new() -> (r: Self) {
        DataTransformer {  }
    }
}

} // verus!
