//! Process-wide, immutable runtime configuration.

use vstd::prelude::*;

verus! {

/// Number of bytes in one Wasm linear-memory page.
pub const PAGE_SIZE: u64 = 65536;

/// Limits under which every invocation runs.  Immutable for the life of
/// the process.
pub struct RuntimeConfig {
    /// Cap on linear-memory growth, in pages of `PAGE_SIZE` bytes.
    pub max_memory_pages: u32,
    /// Cap on table growth, in elements.
    pub max_table_elements: u32,
    /// Global cap on concurrently active instances.
    pub max_instances: u32,
    /// Fuel charged to each store before the invocation.
    pub fuel_limit: u64,
    /// Timeout applied when a request names none, in seconds.
    pub default_timeout_seconds: u64,
    /// Upper bound on any requested timeout, in seconds.
    pub max_timeout_seconds: u64,
    /// Upper bound on the size of a module file, in bytes.
    pub max_module_bytes: u64,
    /// Upper bound on the size of a request body, in bytes.
    pub max_request_body_bytes: u64,
    /// Directory under which every module path must resolve.
    pub module_base_dir: String,
}

impl RuntimeConfig {
    /// Bounds that keep the arithmetic of the service in range.
    pub open spec fn wf(self) -> bool {
        &&& 1 <= self.default_timeout_seconds
        &&& self.default_timeout_seconds <= self.max_timeout_seconds
        &&& self.max_timeout_seconds <= 0xffff_ffff
        &&& (self.max_memory_pages as int) * (PAGE_SIZE as int) <= usize::MAX as int
        &&& self.max_module_bytes <= usize::MAX as u64
    }

    /// The bytes that `max_memory_pages` allows a linear memory to reach.
    pub fn max_memory_bytes(&self) -> (r: usize)
        requires
            self.wf(),
        ensures
            r as int == (self.max_memory_pages as int) * (PAGE_SIZE as int),
    {
        (self.max_memory_pages as usize) * (PAGE_SIZE as usize)
    }

    /// The growth policy for linear memory, as the per-store limiter
    /// enforces it: a request is allowed exactly when the desired size
    /// stays within `max_memory_pages` pages.  A denial surfaces as a
    /// growth failure inside the guest; it never ends the host.
    pub fn allow_memory_growth(&self, desired_bytes: u64) -> (r: bool)
        requires
            self.wf(),
        ensures
            r == (desired_bytes as int <= (self.max_memory_pages as int) * (PAGE_SIZE as int)),
    {
        desired_bytes <= (self.max_memory_pages as u64) * PAGE_SIZE
    }

    /// The growth policy for tables: a request is allowed exactly when
    /// the desired element count stays within `max_table_elements`.
    pub fn allow_table_growth(&self, desired_elements: u64) -> (r: bool)
        ensures
            r == (desired_elements <= self.max_table_elements as u64),
    {
        desired_elements <= self.max_table_elements as u64
    }
}

impl Default for RuntimeConfig {
    /// The stock limits of the service: 100 pages of memory, 1000 table
    /// elements, 10 concurrent instances, one million units of fuel, a
    /// 30 s default and 300 s maximum timeout, 10 MiB of module, 1 MiB
    /// of request body.
    fn default() -> (r: Self)
        ensures
            r.max_memory_pages == 100u32,
            r.max_table_elements == 1000u32,
            r.max_instances == 10u32,
            r.fuel_limit == 1_000_000u64,
            r.default_timeout_seconds == 30u64,
            r.max_timeout_seconds == 300u64,
            r.max_module_bytes == 10_485_760u64,
            r.max_request_body_bytes == 1_048_576u64,
            r.module_base_dir@ == Seq::<char>::empty(),
            r.wf(),
    {
        RuntimeConfig {
            max_memory_pages: 100,
            max_table_elements: 1000,
            max_instances: 10,
            fuel_limit: 1_000_000,
            default_timeout_seconds: 30,
            max_timeout_seconds: 300,
            max_module_bytes: 10_485_760,
            max_request_body_bytes: 1_048_576,
            module_base_dir: String::new(),
        }
    }
}

} // verus!
