//! The cache of loaded values: a map from key to entry, each entry with an
//! optional expiry. Time is a reading, in milliseconds, of a clock that the
//! caller keeps; the cache never reads a clock itself.

use std::collections::HashMap;
use std::hash::Hash;
use vstd::prelude::*;
use vstd::std_specs::hash::obeys_key_model;

verus! {

broadcast use vstd::std_specs::hash::group_hash_axioms;

/// The instant at which a value stored at `now` with the given lifetime
/// expires. Without a lifetime, or where the instant lies beyond the clock's
/// range, the value never expires.
pub open spec fn expiry_of(now: u64, ttl_ms: Option<u64>) -> Option<u64> {
    match ttl_ms {
        Some(ttl) => if now + ttl <= u64::MAX {
            Some((now + ttl) as u64)
        } else {
            None
        },
        None => None,
    }
}

/// A lifetime given in seconds, in milliseconds. A lifetime too long to count
/// in milliseconds is the longest one that can be counted.
pub open spec fn ttl_millis(ttl_seconds: Option<u64>) -> Option<u64> {
    match ttl_seconds {
        Some(s) => if s * 1000 <= u64::MAX {
            Some((s * 1000) as u64)
        } else {
            Some(u64::MAX)
        },
        None => None,
    }
}

/// Computes `ttl_millis`.
pub fn ttl_to_millis(ttl_seconds: Option<u64>) -> (ttl_ms: Option<u64>)
    ensures
        ttl_ms == ttl_millis(ttl_seconds),
{
    match ttl_seconds {
        Some(s) => if s <= u64::MAX / 1000 {
            Some(s * 1000)
        } else {
            Some(u64::MAX)
        },
        None => None,
    }
}

/// A cached value and the instant from which it is no longer served.
#[derive(Debug, Clone)]
pub struct CacheEntry<V> {
    /// The cached value.
    pub value: V,
    /// The instant at which the value expires: it is fresh only while this
    /// instant lies in the future. `None` for a value that never expires.
    pub expires_at: Option<u64>,
}

impl<V> CacheEntry<V> {
    /// An entry is expired once the clock has reached its expiry: it is
    /// fresh only while the expiry lies in the future.
    pub open spec fn expired_at(&self, now: u64) -> bool {
        match self.expires_at {
            Some(t) => now >= t,
            None => false,
        }
    }

    /// Makes an entry for a value stored at `now` with lifetime `ttl_ms`.
    pub fn new(value: V, ttl_ms: Option<u64>, now: u64) -> (entry: Self)
        ensures
            entry.value == value,
            entry.expires_at == expiry_of(now, ttl_ms),
    {
        let expires_at = match ttl_ms {
            Some(ttl) => now.checked_add(ttl),
            None => None,
        };
        CacheEntry { value, expires_at }
    }

    /// Tells whether the entry is expired at `now`.
    pub fn is_expired(&self, now: u64) -> (expired: bool)
        ensures
            expired == self.expired_at(now),
    {
        match self.expires_at {
            Some(t) => now >= t,
            None => false,
        }
    }
}

/// What a reader sees under `key` at `now`: the stored value while the entry
/// is fresh, nothing once it is expired or where there is none.
pub open spec fn visible<K, V>(entries: Map<K, CacheEntry<V>>, key: K, now: u64) -> Option<V> {
    if entries.contains_key(key) && !entries[key].expired_at(now) {
        Some(entries[key].value)
    } else {
        None
    }
}

/// A key-to-entry map with per-entry expiry. The keys are of a type whose
/// hashing and equality follow the model of a hash table's keys, as those of
/// the integer types do.
pub struct CacheStore<K, V> {
    entries: HashMap<K, CacheEntry<V>>,
}

impl<K, V> View for CacheStore<K, V> {
    type V = Map<K, CacheEntry<V>>;

    closed spec fn view(&self) -> Map<K, CacheEntry<V>> {
        self.entries@
    }
}

impl<K: Copy + Eq + Hash, V> CacheStore<K, V> {
    /// An empty cache.
    pub fn new() -> (cache: Self)
        requires
            obeys_key_model::<K>(),
        ensures
            cache@ == Map::<K, CacheEntry<V>>::empty(),
    {
        CacheStore { entries: HashMap::new() }
    }

    /// The value under `key` if an entry is stored and fresh at `now`. An
    /// expired entry is passed over; it stays stored.
    pub fn get(&self, key: K, now: u64) -> (found: Option<&V>)
        requires
            obeys_key_model::<K>(),
        ensures
            match found {
                Some(v) => visible(self@, key, now) == Some(*v),
                None => visible(self@, key, now) is None,
            },
    {
        match self.entries.get(&key) {
            Some(entry) => if entry.is_expired(now) {
                None
            } else {
                Some(&entry.value)
            },
            None => None,
        }
    }

    /// Stores `value` under `key`, replacing what was stored there.
    pub fn put(&mut self, key: K, value: V, ttl_ms: Option<u64>, now: u64)
        requires
            obeys_key_model::<K>(),
        ensures
            final(self)@ == old(self)@.insert(
                key,
                (CacheEntry { value, expires_at: expiry_of(now, ttl_ms) }),
            ),
    {
        let entry = CacheEntry::new(value, ttl_ms, now);
        self.entries.insert(key, entry);
    }

    /// Removes the entry under `key`, fresh or expired.
    pub fn remove(&mut self, key: K)
        requires
            obeys_key_model::<K>(),
        ensures
            final(self)@ == old(self)@.remove(key),
    {
        self.entries.remove(&key);
    }

    /// Removes every entry.
    pub fn clear(&mut self)
        ensures
            final(self)@ == Map::<K, CacheEntry<V>>::empty(),
    {
        self.entries.clear();
    }

    /// Stores every value of `values` under its key, all with the same
    /// lifetime, replacing what was stored under those keys. Entries under
    /// other keys stay as they are.
    pub fn put_all(&mut self, values: HashMap<K, V>, ttl_ms: Option<u64>, now: u64)
        requires
            obeys_key_model::<K>(),
        ensures
            final(self)@ == old(self)@.union_prefer_right(
                entries_from(values@, expiry_of(now, ttl_ms)),
            ),
    {
        let mut values = values;
        let ghost all = values@;
        let ghost expires_at = expiry_of(now, ttl_ms);
        let keys = map_keys(&values);
        let mut i: usize = 0;
        while i < keys.len()
            invariant
                0 <= i <= keys.len(),
                obeys_key_model::<K>(),
                keys@.no_duplicates(),
                keys@.to_set() == all.dom(),
                expires_at == expiry_of(now, ttl_ms),
                forall|j: int|
                    i <= j < keys.len() ==> values@.contains_key(#[trigger] keys@[j])
                        && values@[keys@[j]] == all[keys@[j]],
                forall|k: K|
                    #![trigger self@.contains_key(k)]
                    keys@.take(i as int).contains(k) ==> self@.contains_key(k) && self@[k] == (
                    CacheEntry { value: all[k], expires_at }),
                forall|k: K|
                    #![trigger self@.contains_key(k)]
                    !keys@.take(i as int).contains(k) ==> (self@.contains_key(k) == old(
                        self,
                    )@.contains_key(k)) && (self@.contains_key(k) ==> self@[k] == old(self)@[k]),
            decreases keys.len() - i,
        {
            let key = keys[i];
            let ghost done = keys@.take(i as int);
            let ghost next = keys@.take(i as int + 1);
            proof {
                assert(next =~= done.push(key));
                assert forall|k: K| next.contains(k) <==> (done.contains(k) || k == key) by {
                    if done.contains(k) {
                        let j = choose|j: int| 0 <= j < done.len() && done[j] == k;
                        assert(next[j] == k);
                    }
                    if k == key {
                        assert(next[i as int] == k);
                    }
                }
            }
            let ghost stored = self@;
            match values.remove(&key) {
                Some(value) => {
                    self.put(key, value, ttl_ms, now);
                },
                None => {},
            }
            proof {
                assert forall|k: K| #![trigger self@.contains_key(k)] !next.contains(k) implies (
                self@.contains_key(k) == old(self)@.contains_key(k)) && (self@.contains_key(k)
                    ==> self@[k] == old(self)@[k]) by {
                    assert(!done.contains(k) && k != key);
                    assert(self@.contains_key(k) == stored.contains_key(k));
                    assert(stored.contains_key(k) == old(self)@.contains_key(k));
                    assert(self@.contains_key(k) ==> self@[k] == stored[k]);
                    assert(stored.contains_key(k) ==> stored[k] == old(self)@[k]);
                }
                assert forall|k: K| #![trigger self@.contains_key(k)] next.contains(k) implies
                    self@.contains_key(k) && self@[k] == (CacheEntry {
                    value: all[k],
                    expires_at,
                }) by {
                    if k != key {
                        assert(done.contains(k));
                        assert(stored.contains_key(k));
                    }
                }
            }
            i += 1;
        }
        proof {
            assert(keys@.take(i as int) =~= keys@);
            assert forall|k: K| keys@.contains(k) <==> all.dom().contains(k) by {
                assert(keys@.to_set().contains(k) <==> keys@.contains(k));
            }
            let fresh = entries_from(all, expires_at);
            let merged = old(self)@.union_prefer_right(fresh);
            assert forall|k: K| self@.contains_key(k) == merged.contains_key(k) by {
                assert(keys@.take(i as int).contains(k) == fresh.contains_key(k));
            }
            assert forall|k: K| merged.contains_key(k) implies self@[k] == merged[k] by {
                assert(keys@.take(i as int).contains(k) == fresh.contains_key(k));
            }
            assert(self@ =~= merged);
        }
    }

    /// The number of entries stored, expired ones included.
    pub fn len(&self) -> (n: usize)
        requires
            obeys_key_model::<K>(),
        ensures
            n == self@.len(),
    {
        self.entries.len()
    }
}

/// The entries that a map of freshly loaded values becomes, all with the
/// same expiry.
pub open spec fn entries_from<K, V>(values: Map<K, V>, expires_at: Option<u64>) -> Map<
    K,
    CacheEntry<V>,
> {
    values.map_values(|v: V| CacheEntry { value: v, expires_at })
}

/// The keys of a map, each once, in no particular order.
pub(crate) fn map_keys<K: Copy + Eq + Hash, V>(values: &HashMap<K, V>) -> (keys: Vec<K>)
    requires
        obeys_key_model::<K>(),
    ensures
        keys@.no_duplicates(),
        keys@.to_set() == values@.dom(),
{
    let mut keys: Vec<K> = Vec::new();
    for key in walk: values.keys()
        invariant
            obeys_key_model::<K>(),
            keys@ == walk.seq().take(walk.index()).unref(),
            walk.seq().unref().to_set() == values@.dom(),
            walk.seq().unref().no_duplicates(),
            walk.index() == walk.seq().len() ==> keys@ == walk.seq().unref(),
    {
        keys.push(*key);
        assert(keys@ =~= walk.seq().take(walk.index() + 1).unref());
        assert(walk.seq().take(walk.seq().len() as int) =~= walk.seq());
    }
    keys
}

} // verus!
