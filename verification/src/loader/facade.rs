//! The loader itself: one cache, one queue, one set of counters and the
//! configuration, moved forward one step at a time. The loader never waits
//! and never reads a clock. Each step says what the caller has to do next:
//! hand a value back, start the delay timer, or execute a batch.

use crate::loader::cache::{entries_from, expiry_of, ttl_millis, ttl_to_millis, visible};
use crate::loader::cache::{map_keys, CacheEntry, CacheStore};
use crate::loader::config::DataLoaderConfig;
use crate::loader::executor::{dedup_keys, fan_out, fans_out, keys_of, outcome_of, unique_keys};
use crate::loader::executor::Delivery;
use crate::loader::executor::lemma_unique_keys_exact;
use crate::loader::metrics::{lemma_counters_stay_consistent, DataLoaderMetrics, MetricsCollector};
use crate::loader::queue::{after_enqueue, drawn_in_a_row, lemma_row_grows, ticket_after};
use crate::loader::queue::{BatchQueue, BatchRequest, EnqueueAction};
use std::collections::HashMap;
use std::hash::Hash;
use vstd::prelude::*;
use vstd::std_specs::hash::obeys_key_model;

verus! {

/// Why a loader could not be made.
#[derive(Debug, Clone, Copy, PartialEq, Eq, Structural)]
pub enum ConfigError {
    /// `max_batch_size` is zero: no batch could ever hold a request.
    ZeroBatchSize,
}

/// What one call of `load` came to.
#[derive(Debug)]
pub enum LoadStep<K, V> {
    /// The cache held a fresh value: here is a copy of it. Nothing was
    /// queued.
    Hit(V),
    /// The request was queued under `ticket` and filled the batch. The
    /// caller owns the batch, has to cancel the timer if one runs, and has
    /// to execute the batch now.
    Flush {
        /// The ticket under which the answer to this call will come.
        ticket: u64,
        /// The batch to execute; this call's request is the last of it.
        batch: Vec<BatchRequest<K>>,
    },
    /// The request was queued under `ticket` as the first of a new batch:
    /// the caller has to start the delay timer.
    ArmTimer {
        /// The ticket under which the answer to this call will come.
        ticket: u64,
    },
    /// The request was queued under `ticket` behind others; the timer that
    /// runs will flush it.
    Wait {
        /// The ticket under which the answer to this call will come.
        ticket: u64,
    },
}

/// A batching and caching loader for values of type `V` under keys of type
/// `K`. The keys are of a type whose hashing and equality follow the model
/// of a hash table's keys, as those of the integer types do. The loader owns
/// the batch function `F` that fetches the values.
pub struct DataLoader<K, V, F> {
    batch_load_fn: F,
    config: DataLoaderConfig,
    cache: CacheStore<K, V>,
    queue: BatchQueue<K>,
    metrics: MetricsCollector,
    next_ticket: u64,
}

impl<K: Copy + Eq + Hash, V, F> DataLoader<K, V, F> {
    /// The batch function the loader was made with.
    pub closed spec fn spec_batch_load_fn(&self) -> F {
        self.batch_load_fn
    }

    /// The configuration the loader was made with.
    pub closed spec fn config(&self) -> DataLoaderConfig {
        self.config
    }

    /// The cache's entries, fresh and expired.
    pub closed spec fn cache(&self) -> Map<K, CacheEntry<V>> {
        self.cache@
    }

    /// The requests that wait for the next batch, oldest first.
    pub closed spec fn pending(&self) -> Seq<BatchRequest<K>> {
        self.queue.pending()
    }

    /// Whether the delay timer is armed.
    pub closed spec fn timer_armed(&self) -> bool {
        self.queue.timer_armed()
    }

    /// The counters as they stand.
    pub closed spec fn metrics(&self) -> DataLoaderMetrics {
        self.metrics.current()
    }

    /// The ticket that the next request will be queued under.
    pub closed spec fn next_ticket(&self) -> u64 {
        self.next_ticket
    }

    /// What holds of a loader between any two steps: its keys are of a type
    /// fit for a hash table, its configuration is usable, the counters run
    /// exactly when the configuration says so, they are consistent, they are
    /// all zero while they are switched off, and fewer requests wait than
    /// fill a batch.
    pub closed spec fn wf(&self) -> bool {
        &&& obeys_key_model::<K>()
        &&& self.config.is_valid()
        &&& self.metrics.enabled() == self.config.enable_metrics
        &&& self.metrics.current().consistent()
        &&& !self.config.enable_metrics ==> self.metrics.current() == DataLoaderMetrics::zero()
        &&& self.queue.pending().len() < self.config.max_batch_size
        &&& drawn_in_a_row(self.queue.pending(), self.next_ticket)
    }

    /// A well-formed loader never holds a full batch, and the tickets of the
    /// requests that wait were drawn in a row. Its counters add up: every
    /// request was a hit or a miss, every batch loaded at least one key, and
    /// while the counters are switched off they are all zero.
    pub proof fn lemma_wf_bounds(&self)
        requires
            self.wf(),
        ensures
            obeys_key_model::<K>(),
            self.config().is_valid(),
            self.pending().len() < self.config().max_batch_size,
            drawn_in_a_row(self.pending(), self.next_ticket()),
            self.metrics().consistent(),
            self.metrics().total_requests < u64::MAX ==> self.metrics().total_requests
                == self.metrics().cache_hits + self.metrics().cache_misses,
            self.metrics().batches_executed <= self.metrics().total_keys_loaded,
            !self.config().enable_metrics ==> self.metrics() == DataLoaderMetrics::zero(),
    {
    }

    /// A loader around `batch_load_fn` with the default configuration.
    pub fn new(batch_load_fn: F) -> (loader: Self)
        requires
            obeys_key_model::<K>(),
        ensures
            loader.wf(),
            loader.spec_batch_load_fn() == batch_load_fn,
            loader.config().max_batch_size == 100,
            loader.config().batch_delay_ms == 10,
            loader.config().cache_enabled,
            loader.config().cache_ttl_seconds == Some(300u64),
            loader.config().enable_metrics,
            loader.cache() == Map::<K, CacheEntry<V>>::empty(),
            loader.pending() == Seq::<BatchRequest<K>>::empty(),
            !loader.timer_armed(),
            loader.metrics() == DataLoaderMetrics::zero(),
            loader.next_ticket() == 0,
    {
        let config = DataLoaderConfig::default();
        let metrics = MetricsCollector::new(config.enable_metrics);
        DataLoader {
            batch_load_fn,
            config,
            cache: CacheStore::new(),
            queue: BatchQueue::new(),
            metrics,
            next_ticket: 0,
        }
    }

    /// A loader around `batch_load_fn` with the given configuration, which
    /// is refused if its batch size is zero.
    pub fn with_config(batch_load_fn: F, config: DataLoaderConfig) -> (made: Result<
        Self,
        ConfigError,
    >)
        requires
            obeys_key_model::<K>(),
        ensures
            match made {
                Ok(loader) => {
                    &&& config.is_valid()
                    &&& loader.wf()
                    &&& loader.spec_batch_load_fn() == batch_load_fn
                    &&& loader.config() == config
                    &&& loader.cache() == Map::<K, CacheEntry<V>>::empty()
                    &&& loader.pending() == Seq::<BatchRequest<K>>::empty()
                    &&& !loader.timer_armed()
                    &&& loader.metrics() == DataLoaderMetrics::zero()
                    &&& loader.next_ticket() == 0
                },
                Err(error) => !config.is_valid() && error == ConfigError::ZeroBatchSize,
            },
    {
        if !config.validate() {
            return Err(ConfigError::ZeroBatchSize);
        }
        let metrics = MetricsCollector::new(config.enable_metrics);
        Ok(
            DataLoader {
                batch_load_fn,
                config,
                cache: CacheStore::new(),
                queue: BatchQueue::new(),
                metrics,
                next_ticket: 0,
            },
        )
    }

    /// The batch function the loader was made with.
    pub fn batch_load_fn(&self) -> (batch_load_fn: &F)
        ensures
            *batch_load_fn == self.spec_batch_load_fn(),
    {
        &self.batch_load_fn
    }

    /// The milliseconds for which the delay timer is to run.
    pub fn batch_delay_ms(&self) -> (delay: u64)
        ensures
            delay == self.config().batch_delay_ms,
    {
        self.config.batch_delay_ms
    }

    /// A copy of the counters as they stand. Nothing changes. The counters
    /// of a well-formed loader add up, and they are all zero while they are
    /// switched off.
    pub fn get_metrics(&self) -> (metrics: DataLoaderMetrics)
        ensures
            metrics == self.metrics(),
            self.wf() ==> metrics.consistent(),
            self.wf() && !self.config().enable_metrics ==> metrics == DataLoaderMetrics::zero(),
    {
        self.metrics.snapshot()
    }

    /// Forgets the value cached under `key`. Requests that wait are not
    /// touched.
    pub fn clear_key(&mut self, key: &K)
        requires
            old(self).wf(),
        ensures
            final(self).wf(),
            final(self).spec_batch_load_fn() == old(self).spec_batch_load_fn(),
            final(self).config() == old(self).config(),
            final(self).next_ticket() == old(self).next_ticket(),
            final(self).pending() == old(self).pending(),
            final(self).timer_armed() == old(self).timer_armed(),
            final(self).metrics() == old(self).metrics(),
            final(self).cache() == if old(self).config().cache_enabled {
                old(self).cache().remove(*key)
            } else {
                old(self).cache()
            },
    {
        if self.config.cache_enabled {
            self.cache.remove(*key);
        }
    }

    /// Forgets every cached value. Requests that wait are not touched.
    pub fn clear_cache(&mut self)
        requires
            old(self).wf(),
        ensures
            final(self).wf(),
            final(self).spec_batch_load_fn() == old(self).spec_batch_load_fn(),
            final(self).config() == old(self).config(),
            final(self).next_ticket() == old(self).next_ticket(),
            final(self).pending() == old(self).pending(),
            final(self).timer_armed() == old(self).timer_armed(),
            final(self).metrics() == old(self).metrics(),
            final(self).cache() == if old(self).config().cache_enabled {
                Map::<K, CacheEntry<V>>::empty()
            } else {
                old(self).cache()
            },
    {
        if self.config.cache_enabled {
            self.cache.clear();
        }
    }

    /// The delay timer has fired. Whatever waits leaves the queue as one
    /// batch, which the caller now owns and has to execute; the timer is
    /// disarmed. Where a flush by size came first nothing waits, and there
    /// is no batch.
    pub fn on_timer(&mut self) -> (batch: Option<Vec<BatchRequest<K>>>)
        requires
            old(self).wf(),
        ensures
            final(self).wf(),
            final(self).spec_batch_load_fn() == old(self).spec_batch_load_fn(),
            final(self).config() == old(self).config(),
            final(self).next_ticket() == old(self).next_ticket(),
            final(self).cache() == old(self).cache(),
            final(self).metrics() == old(self).metrics(),
            final(self).pending() == Seq::<BatchRequest<K>>::empty(),
            !final(self).timer_armed(),
            match batch {
                Some(requests) => {
                    &&& requests@ == old(self).pending()
                    &&& requests@.len() > 0
                    &&& drawn_in_a_row(requests@, final(self).next_ticket())
                },
                None => old(self).pending().len() == 0,
            },
    {
        let requests = self.queue.take_on_timer();
        if requests.len() == 0 {
            None
        } else {
            Some(requests)
        }
    }
}

impl<K: Copy + Eq + Hash, V: Clone, F> DataLoader<K, V, F> {
    /// What `load` does with `key` at `now`: whether the cache answers.
    pub open spec fn hits(&self, key: K, now: u64) -> bool {
        self.config().cache_enabled && visible(self.cache(), key, now) is Some
    }

    /// One call for `key`, made at `now`. The request is counted. A fresh
    /// cached value is handed back at once, as a copy, and counted as a hit.
    /// Otherwise the call is counted as a miss and joins the queue under the
    /// next ticket of the loader's counter, whether or not the key waits
    /// there already. The step names the ticket, under which the answer will
    /// come, and says whether the caller has to execute a batch, start the
    /// timer, or only wait. The tickets of a batch that leaves were drawn in
    /// a row, so no two of them are the same.
    pub fn load(&mut self, key: K, now: u64) -> (step: LoadStep<K, V>)
        requires
            old(self).wf(),
        ensures
            final(self).wf(),
            final(self).spec_batch_load_fn() == old(self).spec_batch_load_fn(),
            final(self).config() == old(self).config(),
            final(self).cache() == old(self).cache(),
            old(self).hits(key, now) ==> {
                &&& step matches LoadStep::Hit(value)
                &&& cloned(old(self).cache()[key].value, value)
                &&& final(self).pending() == old(self).pending()
                &&& final(self).timer_armed() == old(self).timer_armed()
                &&& final(self).next_ticket() == old(self).next_ticket()
                &&& final(self).metrics() == if old(self).config().enable_metrics {
                    old(self).metrics().with_request().with_hit()
                } else {
                    old(self).metrics()
                }
            },
            !old(self).hits(key, now) ==> {
                let request = BatchRequest { key, ticket: old(self).next_ticket() };
                let next = after_enqueue(
                    old(self).pending(),
                    request,
                    old(self).config().max_batch_size,
                );
                &&& final(self).pending() == next.0
                &&& final(self).timer_armed() == next.1
                &&& final(self).next_ticket() == ticket_after(old(self).next_ticket())
                &&& match step {
                    LoadStep::Hit(_) => false,
                    LoadStep::Flush { ticket, batch } => {
                        &&& ticket == old(self).next_ticket()
                        &&& next.2 == Some(batch@)
                        &&& drawn_in_a_row(batch@, final(self).next_ticket())
                    },
                    LoadStep::ArmTimer { ticket } => {
                        &&& ticket == old(self).next_ticket()
                        &&& next.2 is None
                        &&& !old(self).timer_armed()
                    },
                    LoadStep::Wait { ticket } => {
                        &&& ticket == old(self).next_ticket()
                        &&& next.2 is None
                        &&& old(self).timer_armed()
                    },
                }
                &&& final(self).metrics() == if old(self).config().enable_metrics {
                    old(self).metrics().with_request().with_miss()
                } else {
                    old(self).metrics()
                }
            },
    {
        proof {
            lemma_counters_stay_consistent(self.metrics.current(), 1);
        }
        self.metrics.record_request();
        if self.config.cache_enabled {
            match self.cache.get(key, now) {
                Some(value) => {
                    let copy = value.clone();
                    self.metrics.record_hit();
                    return LoadStep::Hit(copy);
                },
                None => {},
            }
        }
        self.metrics.record_miss();
        let ticket = self.next_ticket;
        let request = BatchRequest { key, ticket };
        proof {
            lemma_row_grows(self.queue.pending(), self.next_ticket, request);
        }
        self.next_ticket = if ticket == u64::MAX {
            0
        } else {
            ticket + 1
        };
        match self.queue.enqueue(request, self.config.max_batch_size) {
            EnqueueAction::Flush(batch) => LoadStep::Flush { ticket, batch },
            EnqueueAction::ArmTimer => LoadStep::ArmTimer { ticket },
            EnqueueAction::Wait => LoadStep::Wait { ticket },
        }
    }

    /// Opens the execution of a batch that the caller owns: counts the batch
    /// and gives the keys to hand to the batch function, each distinct key
    /// once, in the order in which the keys were first asked for. For an
    /// empty batch nothing is counted and there is nothing to hand on.
    pub fn begin_batch(&mut self, batch: &Vec<BatchRequest<K>>) -> (keys: Option<Vec<K>>)
        requires
            old(self).wf(),
        ensures
            final(self).wf(),
            final(self).spec_batch_load_fn() == old(self).spec_batch_load_fn(),
            final(self).config() == old(self).config(),
            final(self).next_ticket() == old(self).next_ticket(),
            final(self).cache() == old(self).cache(),
            final(self).pending() == old(self).pending(),
            final(self).timer_armed() == old(self).timer_armed(),
            match keys {
                Some(unique) => {
                    &&& batch@.len() > 0
                    &&& unique@ == unique_keys(keys_of(batch@))
                    &&& final(self).metrics() == if old(self).config().enable_metrics {
                        old(self).metrics().with_batch(unique@.len())
                    } else {
                        old(self).metrics()
                    }
                },
                None => batch@.len() == 0 && final(self).metrics() == old(self).metrics(),
            },
    {
        if batch.len() == 0 {
            return None;
        }
        let unique = dedup_keys(batch);
        proof {
            lemma_unique_keys_exact(keys_of(batch@));
            assert(keys_of(batch@).contains(keys_of(batch@)[0]));
            assert(unique@.contains(keys_of(batch@)[0]));
            lemma_counters_stay_consistent(self.metrics.current(), unique@.len());
        }
        self.metrics.record_batch(unique.len());
        Some(unique)
    }

    /// The cache after the result of a batch has been stored at `now`: on
    /// success, with caching on, every key of the result holds its new value
    /// with the configured lifetime and every other entry is as before; on
    /// failure, or with caching off, nothing changes.
    pub open spec fn cache_after<E>(&self, result: Result<Map<K, V>, E>, now: u64) -> Map<
        K,
        CacheEntry<V>,
    > {
        match result {
            Ok(values) => if self.config().cache_enabled {
                self.cache().union_prefer_right(
                    entries_from(
                        values,
                        expiry_of(now, ttl_millis(self.config().cache_ttl_seconds)),
                    ),
                )
            } else {
                self.cache()
            },
            Err(_) => self.cache(),
        }
    }

    /// Closes the execution of a batch with what the batch function
    /// returned, at `now`. Every request of the batch is answered, in the
    /// batch's order and under its own ticket: with a copy of the value
    /// under its key, with the missing-key error where the result lacks its
    /// key, or, where the batch function failed, with a copy of that error.
    /// On success the values are cached; on failure the cache is left
    /// alone.
    pub fn complete_batch<E: Clone>(
        &mut self,
        batch: Vec<BatchRequest<K>>,
        result: Result<HashMap<K, V>, E>,
        now: u64,
    ) -> (deliveries: Vec<Delivery<K, V, E>>)
        requires
            old(self).wf(),
        ensures
            final(self).wf(),
            final(self).spec_batch_load_fn() == old(self).spec_batch_load_fn(),
            final(self).config() == old(self).config(),
            final(self).next_ticket() == old(self).next_ticket(),
            final(self).pending() == old(self).pending(),
            final(self).timer_armed() == old(self).timer_armed(),
            final(self).metrics() == old(self).metrics(),
            fans_out(batch@, outcome_of(result), deliveries@),
            final(self).cache() == old(self).cache_after(outcome_of(result), now),
    {
        let deliveries = fan_out(&batch, &result);
        match result {
            Ok(values) => {
                if self.config.cache_enabled {
                    let ttl_ms = ttl_to_millis(self.config.cache_ttl_seconds);
                    self.cache.put_all(values, ttl_ms, now);
                }
            },
            Err(_) => {},
        }
        deliveries
    }
}

/// The one capability a loader needs from its user: to fetch the values for
/// a list of keys in one go. The result maps each key that was found to its
/// value; a key may be left out. Nothing is assumed of an implementation;
/// what the loader promises of a call, it promises of whatever the call
/// returned.
pub trait BatchLoadFn<K, V, E> {
    /// Loads the values for `keys`.
    fn load(&self, keys: Vec<K>) -> (result: Result<HashMap<K, V>, E>);
}

impl<K: Copy + Eq + Hash, V: Clone, F> DataLoader<K, V, F> {
    /// Executes a batch that the caller owns, in one go: counts it, calls
    /// the batch function once with the batch's distinct keys, and answers
    /// every request from what came back, as `begin_batch` and
    /// `complete_batch` do. For an empty batch the batch function is not
    /// called and nothing changes.
    pub fn execute_batch<E: Clone>(&mut self, batch: Vec<BatchRequest<K>>, now: u64) -> (deliveries:
        Vec<Delivery<K, V, E>>) where F: BatchLoadFn<K, V, E>
        requires
            old(self).wf(),
        ensures
            final(self).wf(),
            final(self).spec_batch_load_fn() == old(self).spec_batch_load_fn(),
            final(self).config() == old(self).config(),
            final(self).next_ticket() == old(self).next_ticket(),
            final(self).pending() == old(self).pending(),
            final(self).timer_armed() == old(self).timer_armed(),
            deliveries@.len() == batch@.len(),
            forall|i: int|
                0 <= i < batch@.len() ==> (#[trigger] deliveries@[i]).ticket == batch@[i].ticket,
            batch@.len() == 0 ==> {
                &&& final(self).metrics() == old(self).metrics()
                &&& final(self).cache() == old(self).cache()
            },
            batch@.len() > 0 ==> {
                &&& final(self).metrics() == if old(self).config().enable_metrics {
                    old(self).metrics().with_batch(unique_keys(keys_of(batch@)).len())
                } else {
                    old(self).metrics()
                }
                &&& exists|keys: Vec<K>, result: Result<HashMap<K, V>, E>|
                    {
                        &&& keys@ == unique_keys(keys_of(batch@))
                        &&& call_ensures(
                            <F as BatchLoadFn<K, V, E>>::load,
                            (&old(self).spec_batch_load_fn(), keys),
                            result,
                        )
                        &&& fans_out(batch@, outcome_of(result), deliveries@)
                        &&& final(self).cache() == old(self).cache_after(outcome_of(result), now)
                    }
            },
    {
        match self.begin_batch(&batch) {
            Some(keys) => {
                let ghost handed = keys;
                let result = self.batch_load_fn.load(keys);
                let ghost returned = result;
                let ghost before = *self;
                let deliveries = self.complete_batch(batch, result, now);
                proof {
                    assert(before.cache_after(outcome_of(returned), now) == old(self).cache_after(
                        outcome_of(returned),
                        now,
                    ));
                    assert(handed@ == unique_keys(keys_of(batch@)) && call_ensures(
                        <F as BatchLoadFn<K, V, E>>::load,
                        (&old(self).spec_batch_load_fn(), handed),
                        returned,
                    ) && fans_out(batch@, outcome_of(returned), deliveries@) && self.cache()
                        == old(self).cache_after(outcome_of(returned), now));
                }
                deliveries
            },
            None => Vec::new(),
        }
    }

    /// `cached` holds exactly those of `keys` that the cache answers at
    /// `now`, each with a copy of its cached value.
    pub open spec fn answered_from_cache(&self, keys: Seq<K>, now: u64, cached: Map<K, V>) -> bool {
        &&& forall|k: K| #[trigger]
            cached.contains_key(k) <==> keys.contains(k) && self.hits(k, now)
        &&& forall|k: K|
            cached.contains_key(k) ==> self.cache().contains_key(k) && cloned(
                self.cache()[k].value,
                #[trigger] cached[k],
            )
    }

    /// Sorts `keys` into those that the cache answers at `now` and the rest.
    /// The first part maps each answered key to a copy of its cached value;
    /// the second part lists the other keys in the order given, a key as
    /// often as it was given. With caching off every key is in the second
    /// part.
    pub fn split_cached(&self, keys: &Vec<K>, now: u64) -> (parts: (HashMap<K, V>, Vec<K>))
        requires
            self.wf(),
        ensures
            parts.1@ == keys@.filter(|k: K| !self.hits(k, now)),
            self.answered_from_cache(keys@, now, parts.0@),
    {
        broadcast use vstd::std_specs::hash::group_hash_axioms;

        let mut cached: HashMap<K, V> = HashMap::new();
        let mut uncached: Vec<K> = Vec::new();
        let ghost miss = |k: K| !self.hits(k, now);
        let mut i: usize = 0;
        while i < keys.len()
            invariant
                0 <= i <= keys.len(),
                obeys_key_model::<K>(),
                miss == |k: K| !self.hits(k, now),
                uncached@ == keys@.take(i as int).filter(miss),
                forall|k: K| #[trigger]
                    cached@.contains_key(k) <==> keys@.take(i as int).contains(k)
                        && self.hits(k, now),
                forall|k: K|
                    cached@.contains_key(k) ==> self.cache().contains_key(k) && cloned(
                        self.cache()[k].value,
                        #[trigger] cached@[k],
                    ),
            decreases keys.len() - i,
        {
            let key = keys[i];
            let ghost done = keys@.take(i as int);
            let ghost next = keys@.take(i as int + 1);
            proof {
                assert(next.drop_last() =~= done);
                assert(next.last() == key);
                reveal_with_fuel(Seq::filter, 2);
                assert forall|k: K| next.contains(k) <==> (done.contains(k) || k == key) by {
                    if done.contains(k) {
                        let j = choose|j: int| 0 <= j < done.len() && done[j] == k;
                        assert(next[j] == k);
                    }
                    if k == key {
                        assert(next[i as int] == k);
                    }
                }
            }
            let ghost had = cached@;
            assert(forall|k: K| #[trigger]
                had.contains_key(k) <==> done.contains(k) && self.hits(k, now));
            let mut answered = false;
            if self.config.cache_enabled {
                match self.cache.get(key, now) {
                    Some(value) => {
                        cached.insert(key, value.clone());
                        answered = true;
                    },
                    None => {},
                }
            }
            if !answered {
                uncached.push(key);
            }
            proof {
                assert(answered == self.hits(key, now));
                assert forall|k: K| #[trigger]
                    cached@.contains_key(k) <==> next.contains(k) && self.hits(k, now) by {
                    assert(had.contains_key(k) <==> done.contains(k) && self.hits(k, now));
                    assert(next.contains(k) <==> (done.contains(k) || k == key));
                }
            }
            i += 1;
        }
        proof {
            assert(keys@.take(i as int) =~= keys@);
        }
        (cached, uncached)
    }

    /// Closes a direct load: merges what the cache answered with what the
    /// batch function returned at `now`, and caches the new values as
    /// `complete_batch` does. Where the batch function failed its error is
    /// the whole result, and nothing is cached.
    pub fn merge_loaded<E>(
        &mut self,
        cached: HashMap<K, V>,
        result: Result<HashMap<K, V>, E>,
        now: u64,
    ) -> (merged: Result<HashMap<K, V>, E>)
        requires
            old(self).wf(),
        ensures
            final(self).wf(),
            final(self).spec_batch_load_fn() == old(self).spec_batch_load_fn(),
            final(self).config() == old(self).config(),
            final(self).next_ticket() == old(self).next_ticket(),
            final(self).pending() == old(self).pending(),
            final(self).timer_armed() == old(self).timer_armed(),
            final(self).metrics() == old(self).metrics(),
            final(self).cache() == old(self).cache_after(outcome_of(result), now),
            merged_from(cached@, outcome_of(result), outcome_of(merged)),
    {
        broadcast use vstd::std_specs::hash::group_hash_axioms;

        match result {
            Ok(values) => {
                let mut merged = cached;
                let keys = map_keys(&values);
                let mut i: usize = 0;
                while i < keys.len()
                    invariant
                        0 <= i <= keys.len(),
                        obeys_key_model::<K>(),
                        keys@.to_set() == values@.dom(),
                        forall|k: K| #[trigger]
                            merged@.contains_key(k) <==> cached@.contains_key(k) || keys@.take(
                                i as int,
                            ).contains(k),
                        forall|k: K|
                            keys@.take(i as int).contains(k) ==> cloned(
                                values@[k],
                                #[trigger] merged@[k],
                            ),
                        forall|k: K|
                            cached@.contains_key(k) && !keys@.take(i as int).contains(k)
                                ==> #[trigger] merged@[k] == cached@[k],
                    decreases keys.len() - i,
                {
                    let key = keys[i];
                    let ghost done = keys@.take(i as int);
                    let ghost next = keys@.take(i as int + 1);
                    let ghost had = merged@;
                    proof {
                        assert(keys@.to_set().contains(key));
                        assert forall|k: K| next.contains(k) <==> (done.contains(k) || k
                            == key) by {
                            if done.contains(k) {
                                let j = choose|j: int| 0 <= j < done.len() && done[j] == k;
                                assert(next[j] == k);
                            }
                            if k == key {
                                assert(next[i as int] == k);
                            }
                        }
                    }
                    match values.get(&key) {
                        Some(value) => {
                            merged.insert(key, value.clone());
                        },
                        None => {},
                    }
                    proof {
                        assert forall|k: K| #[trigger]
                            merged@.contains_key(k) <==> cached@.contains_key(k) || next.contains(
                                k,
                            ) by {
                            assert(had.contains_key(k) <==> cached@.contains_key(k)
                                || done.contains(k));
                        }
                    }
                    i += 1;
                }
                proof {
                    assert(keys@.take(i as int) =~= keys@);
                    assert forall|k: K| keys@.contains(k) <==> values@.contains_key(k) by {
                        assert(keys@.to_set().contains(k) <==> keys@.contains(k));
                    }
                }
                if self.config.cache_enabled {
                    let ttl_ms = ttl_to_millis(self.config.cache_ttl_seconds);
                    self.cache.put_all(values, ttl_ms, now);
                }
                Ok(merged)
            },
            Err(error) => Err(error),
        }
    }

    /// Loads several keys at once, at `now`. Keys that the cache answers
    /// are served from it. The others are handed to the batch function
    /// directly, in the order given and without passing through the queue,
    /// so they are never merged with requests that wait there; what comes
    /// back is cached. Where the batch function fails, so does the whole
    /// call. Where the cache answers every key, the batch function is not
    /// called.
    pub fn load_many<E>(&mut self, keys: Vec<K>, now: u64) -> (loaded: Result<HashMap<K, V>, E>) where
        F: BatchLoadFn<K, V, E>,
        requires
            old(self).wf(),
        ensures
            final(self).wf(),
            final(self).spec_batch_load_fn() == old(self).spec_batch_load_fn(),
            final(self).config() == old(self).config(),
            final(self).next_ticket() == old(self).next_ticket(),
            final(self).pending() == old(self).pending(),
            final(self).timer_armed() == old(self).timer_armed(),
            final(self).metrics() == old(self).metrics(),
            keys@.filter(|k: K| !old(self).hits(k, now)).len() == 0 ==> {
                &&& loaded matches Ok(values)
                &&& old(self).answered_from_cache(keys@, now, values@)
                &&& final(self).cache() == old(self).cache()
            },
            keys@.filter(|k: K| !old(self).hits(k, now)).len() > 0 ==> exists|
                cached: Map<K, V>,
                uncached: Vec<K>,
                result: Result<HashMap<K, V>, E>,
            |
                {
                    &&& old(self).answered_from_cache(keys@, now, cached)
                    &&& uncached@ == keys@.filter(|k: K| !old(self).hits(k, now))
                    &&& call_ensures(
                        <F as BatchLoadFn<K, V, E>>::load,
                        (&old(self).spec_batch_load_fn(), uncached),
                        result,
                    )
                    &&& merged_from(cached, outcome_of(result), outcome_of(loaded))
                    &&& final(self).cache() == old(self).cache_after(outcome_of(result), now)
                },
    {
        let (cached, uncached) = self.split_cached(&keys, now);
        if uncached.len() == 0 {
            return Ok(cached);
        }
        let ghost handed = uncached;
        let result = self.batch_load_fn.load(uncached);
        let ghost from_cache = cached@;
        let ghost returned = result;
        let loaded = self.merge_loaded(cached, result, now);
        proof {
            assert(old(self).answered_from_cache(keys@, now, from_cache) && handed@
                == keys@.filter(|k: K| !old(self).hits(k, now)) && call_ensures(
                <F as BatchLoadFn<K, V, E>>::load,
                (&old(self).spec_batch_load_fn(), handed),
                returned,
            ) && merged_from(from_cache, outcome_of(returned), outcome_of(loaded)) && self.cache()
                == old(self).cache_after(outcome_of(returned), now));
        }
        loaded
    }
}

/// `merged` is what a direct load returns, given what the cache answered
/// and what the batch function returned: the batch function's error where
/// it failed; otherwise a map that holds the keys of both parts, with a
/// copy of the loaded value where a key was loaded and the cached value
/// elsewhere.
pub open spec fn merged_from<K, V: Clone, E>(
    cached: Map<K, V>,
    result: Result<Map<K, V>, E>,
    merged: Result<Map<K, V>, E>,
) -> bool {
    match result {
        Ok(values) => {
            &&& merged matches Ok(all)
            &&& forall|k: K| #[trigger]
                all.contains_key(k) <==> cached.contains_key(k) || values.contains_key(k)
            &&& forall|k: K| values.contains_key(k) ==> cloned(values[k], #[trigger] all[k])
            &&& forall|k: K|
                cached.contains_key(k) && !values.contains_key(k) ==> #[trigger] all[k]
                    == cached[k]
        },
        Err(error) => merged == Err::<Map<K, V>, E>(error),
    }
}

} // verus!
