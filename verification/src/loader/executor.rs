//! Batch execution: the distinct keys of a batch, in the order in which they
//! were first asked for, and the answer that each request of the batch gets.

use crate::loader::queue::BatchRequest;
use std::collections::HashMap;
use std::collections::HashSet;
use std::hash::Hash;
use vstd::prelude::*;
use vstd::std_specs::hash::obeys_key_model;

verus! {

broadcast use vstd::std_specs::hash::group_hash_axioms;

/// The keys of a list of requests, one per request, in the list's order.
pub open spec fn keys_of<K>(requests: Seq<BatchRequest<K>>) -> Seq<K> {
    requests.map_values(|r: BatchRequest<K>| r.key)
}

/// The distinct keys of `keys`, each at the place of its first occurrence.
pub open spec fn unique_keys<K>(keys: Seq<K>) -> Seq<K>
    decreases keys.len(),
{
    if keys.len() == 0 {
        Seq::empty()
    } else {
        let before = unique_keys(keys.drop_last());
        if before.contains(keys.last()) {
            before
        } else {
            before.push(keys.last())
        }
    }
}

/// The distinct keys hold every key of the list and no other, and none
/// twice.
pub proof fn lemma_unique_keys_exact<K>(keys: Seq<K>)
    ensures
        unique_keys(keys).no_duplicates(),
        forall|k: K| unique_keys(keys).contains(k) <==> keys.contains(k),
        unique_keys(keys).len() <= keys.len(),
    decreases keys.len(),
{
    if keys.len() == 0 {
    } else {
        let init = keys.drop_last();
        let last = keys.last();
        lemma_unique_keys_exact(init);
        let before = unique_keys(init);
        assert forall|k: K| unique_keys(keys).contains(k) <==> keys.contains(k) by {
            if keys.contains(k) {
                let i = choose|i: int| 0 <= i < keys.len() && keys[i] == k;
                if i < init.len() {
                    assert(init[i] == k);
                    assert(init.contains(k));
                    assert(before.contains(k));
                    if !before.contains(last) {
                        let j = choose|j: int| 0 <= j < before.len() && before[j] == k;
                        assert(before.push(last)[j] == k);
                    }
                } else {
                    assert(k == last);
                    if !before.contains(last) {
                        assert(before.push(last)[before.len() as int] == last);
                    }
                }
            }
            if unique_keys(keys).contains(k) {
                let j = choose|j: int| 0 <= j < unique_keys(keys).len() && unique_keys(keys)[j] == k;
                if before.contains(last) || j < before.len() {
                    assert(before[j] == k);
                    assert(before.contains(k));
                    assert(init.contains(k));
                    let i = choose|i: int| 0 <= i < init.len() && init[i] == k;
                    assert(keys[i] == k);
                } else {
                    assert(k == last);
                    assert(keys[keys.len() - 1] == k);
                }
            }
        }
    }
}

/// A key that occurs in the list stands among the distinct keys exactly
/// once.
pub proof fn lemma_each_key_once<K>(keys: Seq<K>, key: K)
    requires
        keys.contains(key),
    ensures
        unique_keys(keys).to_multiset().count(key) == 1,
{
    lemma_unique_keys_exact(keys);
    let u = unique_keys(keys);
    assert(u.contains(key));
    u.lemma_multiset_has_no_duplicates();
    broadcast use vstd::seq_lib::group_to_multiset_ensures;
    assert(u.to_multiset().count(key) > 0);
}

/// The distinct keys of a prefix are a prefix of the distinct keys of the
/// whole list: a later request never moves an earlier key.
pub proof fn lemma_unique_keys_prefix<K>(keys: Seq<K>, n: int)
    requires
        0 <= n <= keys.len(),
    ensures
        unique_keys(keys.take(n)).is_prefix_of(unique_keys(keys)),
    decreases keys.len() - n,
{
    if n == keys.len() {
        assert(keys.take(n) =~= keys);
    } else {
        lemma_unique_keys_prefix(keys.drop_last(), n);
        assert(keys.drop_last().take(n) =~= keys.take(n));
    }
}

/// The distinct keys keep the order of first occurrence: of two of them, the
/// one that stands earlier occurs in the list before the other occurs at
/// all.
pub proof fn lemma_unique_keys_in_first_occurrence_order<K>(keys: Seq<K>, i: int, j: int)
    requires
        0 <= i < j < unique_keys(keys).len(),
    ensures
        exists|a: int|
            {
                &&& 0 <= a < keys.len()
                &&& keys[a] == unique_keys(keys)[i]
                &&& forall|b: int| 0 <= b <= a ==> keys[b] != unique_keys(keys)[j]
            },
    decreases keys.len(),
{
    let u = unique_keys(keys);
    let init = keys.drop_last();
    let last = keys.last();
    let before = unique_keys(init);
    lemma_unique_keys_exact(init);
    assert(before[i] == u[i]);
    if j < before.len() {
        assert(before[j] == u[j]);
        lemma_unique_keys_in_first_occurrence_order(init, i, j);
        let a = choose|a: int|
            {
                &&& 0 <= a < init.len()
                &&& init[a] == before[i]
                &&& forall|b: int| 0 <= b <= a ==> init[b] != before[j]
            };
        assert(keys[a] == u[i]);
        assert forall|b: int| 0 <= b <= a implies keys[b] != u[j] by {
            assert(init[b] == keys[b]);
        }
    } else {
        assert(u[j] == last);
        assert(!init.contains(last));
        assert(before.contains(before[i]));
        assert(init.contains(before[i]));
        let a = choose|a: int| 0 <= a < init.len() && init[a] == before[i];
        assert(keys[a] == u[i]);
        assert forall|b: int| 0 <= b <= a implies keys[b] != u[j] by {
            assert(init[b] == keys[b]);
        }
    }
}

/// Computes the distinct keys of a batch, in the order in which they were
/// first asked for.
pub fn dedup_keys<K: Copy + Eq + Hash>(pending: &Vec<BatchRequest<K>>) -> (keys: Vec<K>)
    requires
        obeys_key_model::<K>(),
    ensures
        keys@ == unique_keys(keys_of(pending@)),
{
    let mut keys: Vec<K> = Vec::new();
    let mut seen: HashSet<K> = HashSet::new();
    let mut i: usize = 0;
    while i < pending.len()
        invariant
            0 <= i <= pending.len(),
            obeys_key_model::<K>(),
            keys@ == unique_keys(keys_of(pending@.take(i as int))),
            forall|k: K| seen@.contains(k) <==> keys@.contains(k),
        decreases pending.len() - i,
    {
        let key = pending[i].key;
        proof {
            let upto = keys_of(pending@.take(i as int + 1));
            assert(upto.drop_last() =~= keys_of(pending@.take(i as int)));
            assert(upto.last() == key);
        }
        if !seen.contains(&key) {
            seen.insert(key);
            let ghost before = keys@;
            keys.push(key);
            proof {
                assert forall|k: K| seen@.contains(k) <==> keys@.contains(k) by {
                    if before.contains(k) {
                        let j = choose|j: int| 0 <= j < before.len() && before[j] == k;
                        assert(keys@[j] == k);
                    }
                    if k == key {
                        assert(keys@[before.len() as int] == k);
                    }
                }
            }
        }
        i += 1;
    }
    proof {
        assert(pending@.take(i as int) =~= pending@);
    }
    keys
}

/// Why a request got no value.
#[derive(Debug)]
pub enum LoadError<K, E> {
    /// The batch function failed; every request of the batch gets its error.
    Batch(E),
    /// The batch function succeeded but left out the key of this request.
    MissingKey(K),
}

/// The answer to one request: the ticket of the waiting caller and what it
/// is to receive.
#[derive(Debug)]
pub struct Delivery<K, V, E> {
    /// The ticket of the request that is answered.
    pub ticket: u64,
    /// The value loaded for the request's key, or why there is none.
    pub outcome: Result<V, LoadError<K, E>>,
}

/// What a batch function returned, with the map taken as a mathematical map.
pub open spec fn outcome_of<K, V, E>(result: Result<HashMap<K, V>, E>) -> Result<Map<K, V>, E> {
    match result {
        Ok(values) => Ok(values@),
        Err(error) => Err(error),
    }
}

/// `delivery` is the right answer to `request`, given what the batch
/// function returned: a copy of the value under the request's own key; the
/// missing-key error where the result lacks that key; a copy of the batch
/// function's error where it failed.
pub open spec fn answers<K, V: Clone, E: Clone>(
    request: BatchRequest<K>,
    result: Result<Map<K, V>, E>,
    delivery: Delivery<K, V, E>,
) -> bool {
    &&& delivery.ticket == request.ticket
    &&& match result {
        Ok(values) => if values.contains_key(request.key) {
            delivery.outcome matches Ok(v) && cloned(values[request.key], v)
        } else {
            delivery.outcome == Err::<V, LoadError<K, E>>(LoadError::MissingKey(request.key))
        },
        Err(error) => delivery.outcome matches Err(LoadError::Batch(e)) && cloned(error, e),
    }
}

/// `deliveries` answers `pending` request by request, in the same order.
pub open spec fn fans_out<K, V: Clone, E: Clone>(
    pending: Seq<BatchRequest<K>>,
    result: Result<Map<K, V>, E>,
    deliveries: Seq<Delivery<K, V, E>>,
) -> bool {
    &&& deliveries.len() == pending.len()
    &&& forall|i: int|
        0 <= i < pending.len() ==> answers(pending[i], result, #[trigger] deliveries[i])
}

/// Answers every request of a batch from the one result of the batch
/// function, requests that share a key included.
pub fn fan_out<K: Copy + Eq + Hash, V: Clone, E: Clone>(
    pending: &Vec<BatchRequest<K>>,
    result: &Result<HashMap<K, V>, E>,
) -> (deliveries: Vec<Delivery<K, V, E>>)
    requires
        obeys_key_model::<K>(),
    ensures
        fans_out(pending@, outcome_of(*result), deliveries@),
{
    let mut deliveries: Vec<Delivery<K, V, E>> = Vec::new();
    let mut i: usize = 0;
    while i < pending.len()
        invariant
            0 <= i <= pending.len(),
            obeys_key_model::<K>(),
            deliveries.len() == i,
            forall|j: int|
                0 <= j < i ==> answers(pending@[j], outcome_of(*result), #[trigger] deliveries@[j]),
        decreases pending.len() - i,
    {
        let request = pending[i];
        let outcome = match result {
            Ok(values) => match values.get(&request.key) {
                Some(value) => Ok(value.clone()),
                None => Err(LoadError::MissingKey(request.key)),
            },
            Err(error) => Err(LoadError::Batch(error.clone())),
        };
        deliveries.push(Delivery { ticket: request.ticket, outcome });
        i += 1;
    }
    deliveries
}

} // verus!
