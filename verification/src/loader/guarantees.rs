//! What a caller may rely on across several steps of a loader, proved from
//! the contracts of the single steps.

use crate::loader::cache::{entries_from, expiry_of, ttl_millis, visible, CacheEntry};
use crate::loader::executor::{answers, fans_out, Delivery, LoadError};
use crate::loader::facade::DataLoader;
use crate::loader::queue::{after_enqueue, drawn_in_a_row, lemma_tickets_in_a_row_differ};
use crate::loader::queue::BatchRequest;
use std::hash::Hash;
use vstd::prelude::*;

verus! {

/// The queue after each of `requests` has joined it in turn, starting with
/// `pending` waiting and the timer as `armed` says: what still waits, whether
/// a timer is armed, and the batches that left by size, oldest first.
pub open spec fn after_enqueue_all<K>(
    pending: Seq<BatchRequest<K>>,
    armed: bool,
    requests: Seq<BatchRequest<K>>,
    max_batch_size: usize,
) -> (Seq<BatchRequest<K>>, bool, Seq<Seq<BatchRequest<K>>>)
    decreases requests.len(),
{
    if requests.len() == 0 {
        (pending, armed, Seq::empty())
    } else {
        let before = after_enqueue_all(pending, armed, requests.drop_last(), max_batch_size);
        let step = after_enqueue(before.0, requests.last(), max_batch_size);
        match step.2 {
            Some(batch) => (step.0, step.1, before.2.push(batch)),
            None => (step.0, step.1, before.2),
        }
    }
}

/// While fewer requests have come than fill a batch, none leaves by size:
/// all of them wait, in the order in which they came, and the timer is
/// armed. When the timer fires, the batch it takes is therefore all of them.
pub proof fn lemma_below_threshold_all_wait<K>(requests: Seq<BatchRequest<K>>, max_batch_size: usize)
    requires
        0 < requests.len() < max_batch_size,
    ensures
        after_enqueue_all(Seq::empty(), false, requests, max_batch_size) == (
            requests,
            true,
            Seq::<Seq<BatchRequest<K>>>::empty(),
        ),
    decreases requests.len(),
{
    let init = requests.drop_last();
    let before = after_enqueue_all(Seq::empty(), false, init, max_batch_size);
    if init.len() > 0 {
        lemma_below_threshold_all_wait(init, max_batch_size);
    } else {
        assert(init =~= Seq::<BatchRequest<K>>::empty());
    }
    assert(before.0 == init);
    assert(before.2 == Seq::<Seq<BatchRequest<K>>>::empty());
    assert(init.push(requests.last()) =~= requests);
}

/// The request that fills a batch flushes it: after exactly as many requests
/// as a batch holds, one batch has left, it holds all of them in the order
/// in which they came, nothing waits and no timer is armed.
pub proof fn lemma_threshold_flushes_once<K>(requests: Seq<BatchRequest<K>>, max_batch_size: usize)
    requires
        max_batch_size >= 1,
        requests.len() == max_batch_size,
    ensures
        after_enqueue_all(Seq::empty(), false, requests, max_batch_size) == (
            Seq::<BatchRequest<K>>::empty(),
            false,
            seq![requests],
        ),
{
    let init = requests.drop_last();
    let before = after_enqueue_all(Seq::empty(), false, init, max_batch_size);
    if init.len() > 0 {
        lemma_below_threshold_all_wait(init, max_batch_size);
    } else {
        assert(init =~= Seq::<BatchRequest<K>>::empty());
    }
    assert(before.0 == init);
    assert(before.2 == Seq::<Seq<BatchRequest<K>>>::empty());
    assert(init.push(requests.last()) =~= requests);
    assert(Seq::<Seq<BatchRequest<K>>>::empty().push(requests) =~= seq![requests]);
}

/// No request is lost and none is handed out twice: the batches that left
/// by size, laid end to end, followed by what still waits, are exactly what
/// waited before followed by what came, in that order.
pub proof fn lemma_every_request_in_one_batch<K>(
    pending: Seq<BatchRequest<K>>,
    armed: bool,
    requests: Seq<BatchRequest<K>>,
    max_batch_size: usize,
)
    ensures
        ({
            let after = after_enqueue_all(pending, armed, requests, max_batch_size);
            after.2.flatten() + after.0 == pending + requests
        }),
    decreases requests.len(),
{
    let after = after_enqueue_all(pending, armed, requests, max_batch_size);
    if requests.len() == 0 {
        assert(after.2.flatten() =~= Seq::<BatchRequest<K>>::empty());
        assert(after.2.flatten() + after.0 =~= pending + requests);
    } else {
        let init = requests.drop_last();
        let before = after_enqueue_all(pending, armed, init, max_batch_size);
        lemma_every_request_in_one_batch(pending, armed, init, max_batch_size);
        let grown = before.0.push(requests.last());
        assert(pending + requests =~= (pending + init).push(requests.last()));
        if grown.len() >= max_batch_size {
            before.2.lemma_flatten_push(grown);
            assert(after.2.flatten() + after.0 =~= before.2.flatten() + grown);
            assert(before.2.flatten() + grown =~= (before.2.flatten() + before.0).push(
                requests.last(),
            ));
        } else {
            assert(after.2.flatten() + after.0 =~= (before.2.flatten() + before.0).push(
                requests.last(),
            ));
        }
    }
}

/// Every caller gets exactly one answer. The tickets of a batch that a
/// loader hands out were drawn in a row; each request of the batch is
/// answered under its own ticket, and no other answer of the batch carries
/// that ticket.
pub proof fn lemma_each_ticket_answered_once<K, V: Clone, E: Clone>(
    batch: Seq<BatchRequest<K>>,
    next: u64,
    result: Result<Map<K, V>, E>,
    deliveries: Seq<Delivery<K, V, E>>,
    i: int,
    j: int,
)
    requires
        drawn_in_a_row(batch, next),
        batch.len() <= u64::MAX,
        fans_out(batch, result, deliveries),
        0 <= i < batch.len(),
        0 <= j < batch.len(),
        i != j,
    ensures
        deliveries.len() == batch.len(),
        deliveries[i].ticket == batch[i].ticket,
        deliveries[j].ticket != batch[i].ticket,
{
    lemma_tickets_in_a_row_differ(batch, next, i, j);
    assert(answers(batch[i], result, deliveries[i]));
    assert(answers(batch[j], result, deliveries[j]));
}

/// Every request is answered by its own key. Two requests of one batch that
/// share a key get the same kind of answer, and where that is a value, both
/// get a copy of the one value that the batch function returned for the
/// key.
pub proof fn lemma_shared_key_shares_answer<K, V: Clone, E: Clone>(
    batch: Seq<BatchRequest<K>>,
    result: Result<Map<K, V>, E>,
    deliveries: Seq<Delivery<K, V, E>>,
    i: int,
    j: int,
)
    requires
        fans_out(batch, result, deliveries),
        0 <= i < batch.len(),
        0 <= j < batch.len(),
        batch[i].key == batch[j].key,
    ensures
        answers(batch[i], result, deliveries[i]),
        answers(batch[j], result, deliveries[j]),
        deliveries[i].outcome is Ok <==> deliveries[j].outcome is Ok,
        deliveries[i].outcome is Ok ==> {
            &&& result matches Ok(values)
            &&& values.contains_key(batch[i].key)
            &&& cloned(values[batch[i].key], deliveries[i].outcome->Ok_0)
            &&& cloned(values[batch[i].key], deliveries[j].outcome->Ok_0)
        },
{
}

/// A failed batch fails as a whole: every request of it gets a copy of the
/// batch function's error, and none gets a value.
pub proof fn lemma_failure_reaches_every_request<K, V: Clone, E: Clone>(
    batch: Seq<BatchRequest<K>>,
    error: E,
    deliveries: Seq<Delivery<K, V, E>>,
)
    requires
        fans_out(batch, Err::<Map<K, V>, E>(error), deliveries),
    ensures
        deliveries.len() == batch.len(),
        forall|i: int|
            0 <= i < batch.len() ==> {
                &&& (#[trigger] deliveries[i]).ticket == batch[i].ticket
                &&& deliveries[i].outcome matches Err(LoadError::Batch(e))
                &&& cloned(error, e)
            },
{
    assert forall|i: int| 0 <= i < batch.len() implies {
        &&& (#[trigger] deliveries[i]).ticket == batch[i].ticket
        &&& deliveries[i].outcome matches Err(LoadError::Batch(e))
        &&& cloned(error, e)
    } by {
        assert(answers(batch[i], Err::<Map<K, V>, E>(error), deliveries[i]));
    }
}

/// A failed batch leaves the cache as it was, so its keys are loaded anew
/// when they are asked for again.
pub proof fn lemma_failure_keeps_cache<K: Copy + Eq + Hash, V: Clone, E, F>(loader: DataLoader<K, V, F>, error: E, now: u64)
    ensures
        loader.cache_after(Err::<Map<K, V>, E>(error), now) == loader.cache(),
{
}

/// A value stored at `stored_at` is visible at `now` while its lifetime has
/// not run out, whatever the cache held before.
pub proof fn lemma_fresh_after_store<K, V>(
    cache: Map<K, CacheEntry<V>>,
    values: Map<K, V>,
    key: K,
    stored_at: u64,
    ttl_ms: Option<u64>,
    now: u64,
)
    requires
        values.contains_key(key),
        ttl_ms matches Some(ttl) ==> now < stored_at + ttl,
    ensures
        visible(
            cache.union_prefer_right(entries_from(values, expiry_of(stored_at, ttl_ms))),
            key,
            now,
        ) == Some(values[key]),
{
}

/// A value stored at `stored_at` is no longer visible once its lifetime has
/// run out.
pub proof fn lemma_gone_after_ttl<K, V>(
    cache: Map<K, CacheEntry<V>>,
    values: Map<K, V>,
    key: K,
    stored_at: u64,
    ttl: u64,
    now: u64,
)
    requires
        values.contains_key(key),
        now >= stored_at + ttl,
    ensures
        visible(
            cache.union_prefer_right(entries_from(values, expiry_of(stored_at, Some(ttl)))),
            key,
            now,
        ) is None,
{
}

/// After a batch has succeeded at `stored_at` with a value for `key`, a
/// `load` of `key` is a cache hit for as long as the configured lifetime has
/// not run out: it returns at once, queues nothing and so causes no batch.
pub proof fn lemma_load_hits_within_ttl<K: Copy + Eq + Hash, V: Clone, E, F>(
    before: DataLoader<K, V, F>,
    after: DataLoader<K, V, F>,
    values: Map<K, V>,
    key: K,
    stored_at: u64,
    now: u64,
)
    requires
        before.config().cache_enabled,
        after.config() == before.config(),
        after.cache() == before.cache_after(Ok::<Map<K, V>, E>(values), stored_at),
        values.contains_key(key),
        ttl_millis(before.config().cache_ttl_seconds) matches Some(ttl) ==> now < stored_at + ttl,
    ensures
        after.hits(key, now),
        after.cache()[key].value == values[key],
{
    lemma_fresh_after_store(
        before.cache(),
        values,
        key,
        stored_at,
        ttl_millis(before.config().cache_ttl_seconds),
        now,
    );
}

/// Once the configured lifetime has run out, a `load` of `key` is a miss
/// again: the request joins the queue and the key is fetched by a new
/// batch.
pub proof fn lemma_load_misses_after_ttl<K: Copy + Eq + Hash, V: Clone, E, F>(
    before: DataLoader<K, V, F>,
    after: DataLoader<K, V, F>,
    values: Map<K, V>,
    key: K,
    stored_at: u64,
    now: u64,
)
    requires
        after.config() == before.config(),
        after.cache() == before.cache_after(Ok::<Map<K, V>, E>(values), stored_at),
        values.contains_key(key),
        ttl_millis(before.config().cache_ttl_seconds) matches Some(ttl) && now >= stored_at + ttl,
    ensures
        !after.hits(key, now),
{
    if before.config().cache_enabled {
        lemma_gone_after_ttl(
            before.cache(),
            values,
            key,
            stored_at,
            ttl_millis(before.config().cache_ttl_seconds).unwrap(),
            now,
        );
    }
}

/// Forgetting a key makes the next `load` of it a miss.
pub proof fn lemma_load_misses_after_clear<K, V: Clone>(
    cache: Map<K, CacheEntry<V>>,
    key: K,
    now: u64,
)
    ensures
        visible(cache.remove(key), key, now) is None,
        visible(Map::<K, CacheEntry<V>>::empty(), key, now) is None,
{
}

} // verus!
