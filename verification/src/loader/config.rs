//! Configuration of a data loader.

use vstd::prelude::*;

verus! {

/// Options that govern batching and caching. They are fixed when the loader
/// is made.
#[derive(Debug, Clone)]
pub struct DataLoaderConfig {
    /// A batch is flushed as soon as this many requests are pending.
    pub max_batch_size: usize,
    /// Milliseconds to wait after the first pending request before flushing.
    pub batch_delay_ms: u64,
    /// Whether loaded values are cached.
    pub cache_enabled: bool,
    /// Lifetime of a cached value in seconds; `None` means it never expires.
    pub cache_ttl_seconds: Option<u64>,
    /// Whether the counters are kept.
    pub enable_metrics: bool,
}

impl DataLoaderConfig {
    /// A configuration is usable when a batch can hold at least one request.
    pub open spec fn is_valid(&self) -> bool {
        self.max_batch_size >= 1
    }

    /// Tells whether the configuration is usable.
    pub fn validate(&self) -> (ok: bool)
        ensures
            ok == self.is_valid(),
    {
        self.max_batch_size >= 1
    }
}

impl Default for DataLoaderConfig {
    fn default() -> (config: Self)
        ensures
            config.max_batch_size == 100,
            config.batch_delay_ms == 10,
            config.cache_enabled,
            config.cache_ttl_seconds == Some(300u64),
            config.enable_metrics,
            config.is_valid(),
    {
        DataLoaderConfig {
            max_batch_size: 100,
            batch_delay_ms: 10,
            cache_enabled: true,
            cache_ttl_seconds: Some(300),
            enable_metrics: true,
        }
    }
}

} // verus!
