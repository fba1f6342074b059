//! Counters of a loader's work. They only ever grow, and they stop at the
//! largest value a counter can hold.

use vstd::prelude::*;

verus! {

/// A counter's value after `n` more events.
pub open spec fn bumped(count: u64, n: int) -> u64 {
    if count + n <= u64::MAX {
        (count + n) as u64
    } else {
        u64::MAX
    }
}

/// Adds `n` to a counter, stopping at the largest value.
pub fn bump(count: u64, n: u64) -> (next: u64)
    ensures
        next == bumped(count, n as int),
        next >= count,
{
    match count.checked_add(n) {
        Some(sum) => sum,
        None => u64::MAX,
    }
}

/// A point-in-time copy of a loader's counters.
#[derive(Debug, Clone, Copy, PartialEq, Eq, Structural)]
pub struct DataLoaderMetrics {
    /// Calls of `load`.
    pub total_requests: u64,
    /// Calls answered from the cache.
    pub cache_hits: u64,
    /// Calls that had to wait for a batch.
    pub cache_misses: u64,
    /// Batches handed to the batch function.
    pub batches_executed: u64,
    /// Distinct keys handed to the batch function, summed over all batches.
    pub total_keys_loaded: u64,
}

impl DataLoaderMetrics {
    /// All counters at zero.
    pub open spec fn zero() -> Self {
        DataLoaderMetrics {
            total_requests: 0,
            cache_hits: 0,
            cache_misses: 0,
            batches_executed: 0,
            total_keys_loaded: 0,
        }
    }

    /// No counter of `self` is below the same counter of `earlier`.
    pub open spec fn not_below(&self, earlier: &Self) -> bool {
        &&& self.total_requests >= earlier.total_requests
        &&& self.cache_hits >= earlier.cache_hits
        &&& self.cache_misses >= earlier.cache_misses
        &&& self.batches_executed >= earlier.batches_executed
        &&& self.total_keys_loaded >= earlier.total_keys_loaded
    }

    /// What holds of the counters of a loader at every moment: every
    /// request was a hit or a miss, and every batch loaded at least one key.
    /// The first is stated of counters that have not reached the largest
    /// value, where counting stops.
    pub open spec fn consistent(&self) -> bool {
        &&& self.total_requests < u64::MAX ==> self.total_requests == self.cache_hits
            + self.cache_misses
        &&& self.cache_hits + self.cache_misses >= self.total_requests
        &&& self.batches_executed <= self.total_keys_loaded
    }

    /// The counters after one more request.
    pub open spec fn with_request(self) -> Self {
        DataLoaderMetrics { total_requests: bumped(self.total_requests, 1), ..self }
    }

    /// The counters after one more cache hit.
    pub open spec fn with_hit(self) -> Self {
        DataLoaderMetrics { cache_hits: bumped(self.cache_hits, 1), ..self }
    }

    /// The counters after one more cache miss.
    pub open spec fn with_miss(self) -> Self {
        DataLoaderMetrics { cache_misses: bumped(self.cache_misses, 1), ..self }
    }

    /// The counters after one more batch of `size` distinct keys.
    pub open spec fn with_batch(self, size: nat) -> Self {
        DataLoaderMetrics {
            batches_executed: bumped(self.batches_executed, 1),
            total_keys_loaded: bumped(self.total_keys_loaded, size as int),
            ..self
        }
    }

    /// The whole part of the mean batch size, zero before the first batch.
    pub open spec fn mean_batch_size(&self) -> nat {
        if self.batches_executed == 0 {
            0
        } else {
            (self.total_keys_loaded / self.batches_executed) as nat
        }
    }

    /// Computes the whole part of the mean batch size.
    pub fn average_batch_size_floor(&self) -> (mean: u64)
        ensures
            mean == self.mean_batch_size(),
    {
        if self.batches_executed == 0 {
            0
        } else {
            self.total_keys_loaded / self.batches_executed
        }
    }

    /// The share of requests answered from the cache, in thousandths, rounded
    /// down; zero where no request was made.
    pub open spec fn hit_per_mille(&self) -> nat {
        if self.total_requests == 0 {
            0
        } else {
            (self.cache_hits * 1000 / (self.total_requests as int)) as nat
        }
    }

    /// Computes the share of requests answered from the cache, in
    /// thousandths.
    pub fn cache_hit_per_mille(&self) -> (share: u128)
        ensures
            share == self.hit_per_mille(),
    {
        if self.total_requests == 0 {
            0
        } else {
            let hits: u128 = self.cache_hits as u128;
            let total: u128 = self.total_requests as u128;
            hits * 1000 / total
        }
    }
}

impl Default for DataLoaderMetrics {
    fn default() -> (metrics: Self)
        ensures
            metrics == DataLoaderMetrics::zero(),
    {
        DataLoaderMetrics {
            total_requests: 0,
            cache_hits: 0,
            cache_misses: 0,
            batches_executed: 0,
            total_keys_loaded: 0,
        }
    }
}

/// The counters of one loader, with the switch that turns them off. While
/// they are off every recording is a no-op.
pub struct MetricsCollector {
    enabled: bool,
    metrics: DataLoaderMetrics,
}

impl MetricsCollector {
    /// Whether recordings count.
    pub closed spec fn enabled(&self) -> bool {
        self.enabled
    }

    /// The counters as they stand.
    pub closed spec fn current(&self) -> DataLoaderMetrics {
        self.metrics
    }

    /// A collector with all counters at zero.
    pub fn new(enabled: bool) -> (collector: Self)
        ensures
            collector.enabled() == enabled,
            collector.current() == DataLoaderMetrics::zero(),
    {
        MetricsCollector { enabled, metrics: DataLoaderMetrics::default() }
    }

    /// Counts one request.
    pub fn record_request(&mut self)
        ensures
            final(self).enabled() == old(self).enabled(),
            final(self).current() == if old(self).enabled() {
                old(self).current().with_request()
            } else {
                old(self).current()
            },
    {
        if self.enabled {
            self.metrics.total_requests = bump(self.metrics.total_requests, 1);
        }
    }

    /// Counts one cache hit.
    pub fn record_hit(&mut self)
        ensures
            final(self).enabled() == old(self).enabled(),
            final(self).current() == if old(self).enabled() {
                old(self).current().with_hit()
            } else {
                old(self).current()
            },
    {
        if self.enabled {
            self.metrics.cache_hits = bump(self.metrics.cache_hits, 1);
        }
    }

    /// Counts one cache miss.
    pub fn record_miss(&mut self)
        ensures
            final(self).enabled() == old(self).enabled(),
            final(self).current() == if old(self).enabled() {
                old(self).current().with_miss()
            } else {
                old(self).current()
            },
    {
        if self.enabled {
            self.metrics.cache_misses = bump(self.metrics.cache_misses, 1);
        }
    }

    /// Counts one batch of `size` distinct keys.
    pub fn record_batch(&mut self, size: usize)
        ensures
            final(self).enabled() == old(self).enabled(),
            final(self).current() == if old(self).enabled() {
                old(self).current().with_batch(size as nat)
            } else {
                old(self).current()
            },
    {
        if self.enabled {
            self.metrics.batches_executed = bump(self.metrics.batches_executed, 1);
            self.metrics.total_keys_loaded = bump(self.metrics.total_keys_loaded, size as u64);
        }
    }

    /// A copy of the counters as they stand.
    pub fn snapshot(&self) -> (metrics: DataLoaderMetrics)
        ensures
            metrics == self.current(),
    {
        self.metrics
    }
}

/// The mean batch size is the running average of the batch sizes. With
/// `total` keys loaded by `batches` batches, the average is `total / batches`;
/// a further batch of `size` keys moves it by the `batches + 1`th part of its
/// distance to `size`, and that is `(total + size) / (batches + 1)` exactly.
/// The claim is stated free of fractions, multiplied through by
/// `batches * (batches + 1)`.
pub proof fn lemma_mean_is_running_average(total: nat, batches: nat, size: nat)
    requires
        batches >= 1,
    ensures
        total * (batches + 1) + (size * batches - total) == (total + size) * batches,
{
    assert(total * (batches + 1) + (size * batches - total) == (total + size) * batches)
        by (nonlinear_arith);
}

/// The counters stay consistent: through a request that is a hit, through
/// one that is a miss, and through a batch of at least one key.
pub proof fn lemma_counters_stay_consistent(m: DataLoaderMetrics, size: nat)
    requires
        m.consistent(),
        size >= 1,
    ensures
        m.with_request().with_hit().consistent(),
        m.with_request().with_miss().consistent(),
        m.with_batch(size).consistent(),
        DataLoaderMetrics::zero().consistent(),
{
}

/// Counters only grow: whatever is recorded, none falls.
pub proof fn lemma_counters_only_grow(m: DataLoaderMetrics, size: nat)
    ensures
        m.with_request().not_below(&m),
        m.with_hit().not_below(&m),
        m.with_miss().not_below(&m),
        m.with_batch(size).not_below(&m),
{
}

} // verus!
