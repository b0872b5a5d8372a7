//! The expiry-aware store itself: a map from keys to entries, each entry a
//! value together with the timestamp of its last write. Liveness is never
//! stored; it is derived at read time by comparing the elapsed time against
//! the cache's fixed time-to-live.

use core::hash::Hash;
use vstd::hash_map::HashMapWithView;
use vstd::prelude::*;
use vstd::std_specs::hash::obeys_key_model;

verus! {

/// One stored entry: the value and the moment (in nanoseconds) it was last
/// written. An entry can be physically present yet logically expired.
pub struct Entry<V> {
    pub value: V,
    pub last_updated: u64,
}

/// Nanoseconds elapsed from `last_updated` to `now`. A reading earlier than
/// the write (the system clock is not monotonic) counts as no time elapsed.
pub open spec fn spec_elapsed(last_updated: u64, now: u64) -> int {
    if now >= last_updated {
        now - last_updated
    } else {
        0
    }
}

/// An entry written at `last_updated` is live at `now` exactly when strictly
/// less than `ttl` nanoseconds have elapsed. With `ttl == 0` nothing is ever
/// live, since elapsed time is never negative.
pub open spec fn spec_live(last_updated: u64, now: u64, ttl: u64) -> bool {
    spec_elapsed(last_updated, now) < ttl
}

/// The map after writing `v` under `k` at time `now`: any prior entry for
/// `k`, live or expired, is overwritten, value and timestamp both.
pub open spec fn spec_insert<KV, V>(
    entries: Map<KV, Entry<V>>,
    k: KV,
    v: V,
    now: u64,
) -> Map<KV, Entry<V>> {
    entries.insert(k, (Entry { value: v, last_updated: now }))
}

/// The expiry-aware read: the stored value, but only if an entry for `k` is
/// present and still live at `now`; otherwise nothing.
pub open spec fn spec_lookup<KV, V>(
    entries: Map<KV, Entry<V>>,
    k: KV,
    now: u64,
    ttl: u64,
) -> Option<V> {
    if entries.contains_key(k) && spec_live(entries[k].last_updated, now, ttl) {
        Some(entries[k].value)
    } else {
        None
    }
}

/// The expiry-oblivious read: the stored value whenever an entry for `k` is
/// physically present, expired or not. This is what removal hands back.
pub open spec fn spec_take<KV, V>(entries: Map<KV, Entry<V>>, k: KV) -> Option<V> {
    if entries.contains_key(k) {
        Some(entries[k].value)
    } else {
        None
    }
}

/// A keyed store with a fixed time-to-live, set at construction and measured
/// in nanoseconds. Entries older than the time-to-live are reported absent by
/// `get`, yet stay physically stored until overwritten, removed, or cleared.
#[verifier::reject_recursive_types(K)]
#[verifier::reject_recursive_types(V)]
pub struct Cache<K, V> where K: View + Eq + Hash {
    data: HashMapWithView<K, Entry<V>>,
    ttl: u64,
}

impl<K, V> Cache<K, V> where K: View + Eq + Hash {
    /// The fixed time-to-live this cache was constructed with, in nanoseconds.
    pub closed spec fn ttl(&self) -> u64 {
        self.ttl
    }

    /// The entries physically stored, as a map from key views to entries.
    pub closed spec fn entries(&self) -> Map<K::V, Entry<V>> {
        self.data@
    }

    /// An empty cache bound to the given time-to-live (in nanoseconds). A
    /// time-to-live of zero means every entry is expired as soon as written.
    /// The two preconditions are Verus's model of "the key type supports
    /// equality and a stable hash": they hold for the primitive integer types.
    pub fn new(ttl: u64) -> (r: Self)
        requires
            obeys_key_model::<K>(),
            forall|k1: K, k2: K| k1@ == k2@ ==> k1 == k2,
        ensures
            r.ttl() == ttl,
            r.entries() == Map::<K::V, Entry<V>>::empty(),
    {
        Cache { data: HashMapWithView::new(), ttl }
    }

    /// The expiry-aware lookup at an explicit clock reading `now`: exactly
    /// `spec_lookup`, a borrowed view of the stored value if the entry is
    /// live, and nothing if the key is absent or its entry has expired. A
    /// stale entry is not removed; no entry is changed at all.
    pub fn get_at(&self, key: &K, now: u64) -> (r: Option<&V>)
        ensures
            match r {
                Some(v) => spec_lookup(self.entries(), key@, now, self.ttl()) == Some(*v),
                None => spec_lookup(self.entries(), key@, now, self.ttl()) is None,
            },
    {
        match self.data.get(key) {
            Some(e) => {
                let elapsed: u64 = if now >= e.last_updated {
                    now - e.last_updated
                } else {
                    0
                };
                if elapsed < self.ttl {
                    Some(&e.value)
                } else {
                    None
                }
            },
            None => None,
        }
    }

    /// Look the key up at the current clock reading. The cache is left
    /// untouched: in particular a stale entry is not deleted as a side
    /// effect, so a later `remove` can still hand it back. Any value
    /// returned is the one stored under the key, and it was live at some
    /// clock reading; an absent key, or a time-to-live of zero, always
    /// yields nothing.
    pub fn get(&mut self, key: &K) -> (r: Option<&V>)
        ensures
            final(self).entries() == old(self).entries(),
            final(self).ttl() == old(self).ttl(),
            (match r {
                Some(v) => exists|now: u64|
                    spec_lookup(old(self).entries(), key@, now, old(self).ttl()) == Some(*v),
                None => true,
            }),
            !old(self).entries().contains_key(key@) ==> r is None,
            old(self).ttl() == 0 ==> r is None,
    {
        let now: u64 = crate::clock::now_nanos();
        self.get_at(key, now)
    }

    /// Write `value` under `key` as of the explicit clock reading `now`:
    /// exactly `spec_insert`, overwriting any prior entry for that key, live
    /// or expired, value and timestamp both.
    pub fn insert_at(&mut self, key: K, value: V, now: u64)
        ensures
            final(self).ttl() == old(self).ttl(),
            final(self).entries() == spec_insert(old(self).entries(), key@, value, now),
    {
        self.data.insert(key, Entry { value, last_updated: now });
    }

    /// Write `value` under `key`, stamped with the current clock reading.
    /// The entry's expiry clock is reset regardless of prior state; the
    /// time-to-live and every other key's entry are unchanged.
    pub fn insert(&mut self, key: K, value: V)
        ensures
            final(self).ttl() == old(self).ttl(),
            exists|now: u64|
                final(self).entries() == spec_insert(old(self).entries(), key@, value, now),
    {
        let now: u64 = crate::clock::now_nanos();
        self.insert_at(key, value, now);
    }

    /// Delete the entry for `key` if one is physically present, consulting
    /// the time-to-live not at all, and hand its value back: exactly
    /// `spec_take`, so an expired-but-present entry is still returned.
    pub fn remove(&mut self, key: &K) -> (r: Option<V>)
        ensures
            final(self).ttl() == old(self).ttl(),
            final(self).entries() == old(self).entries().remove(key@),
            r == spec_take(old(self).entries(), key@),
    {
        let ghost m0 = self.entries();
        match self.data.remove(key) {
            Some(e) => Some(e.value),
            None => {
                proof {
                    assert(m0.remove(key@) =~= m0);
                }
                None
            },
        }
    }

    /// Delete every entry unconditionally; the time-to-live is kept.
    pub fn clear(&mut self)
        ensures
            final(self).ttl() == old(self).ttl(),
            final(self).entries() == Map::<K::V, Entry<V>>::empty(),
    {
        self.data.clear();
    }
}

} // verus!
