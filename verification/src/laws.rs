//! The laws of lazy expiry, stated over the same spec functions the cache's
//! contracts use (`spec_insert`, `spec_lookup`, `spec_take`) and proved for
//! all keys, values, timestamps and time-to-lives.

use crate::cache::Entry;
use crate::cache::spec_elapsed;
use crate::cache::spec_insert;
use crate::cache::spec_lookup;
use crate::cache::spec_take;
use vstd::prelude::*;

verus! {

/// A fresh insert is retrievable: whatever the cache held before, a value
/// written under `k` at time `now` is returned by a lookup of `k` at that
/// same moment, provided the time-to-live is positive.
pub proof fn fresh_insert_is_retrievable<KV, V>(
    entries: Map<KV, Entry<V>>,
    k: KV,
    v: V,
    now: u64,
    ttl: u64,
)
    requires
        ttl > 0,
    ensures
        spec_lookup(spec_insert(entries, k, v, now), k, now, ttl) == Some(v),
{
}

/// The expiry boundary: once at least `ttl` nanoseconds have elapsed since
/// a value was written under `k`, a lookup of `k` returns nothing — at
/// elapsed time exactly `ttl` the entry is already expired, since liveness
/// is a strict comparison.
pub proof fn expiry_boundary<KV, V>(
    entries: Map<KV, Entry<V>>,
    k: KV,
    v: V,
    written: u64,
    now: u64,
    ttl: u64,
)
    requires
        spec_elapsed(written, now) >= ttl,
    ensures
        spec_lookup(spec_insert(entries, k, v, written), k, now, ttl) is None,
{
}

/// Removal ignores expiry: on an entry that is physically present but
/// expired, a lookup reports nothing, while removal — which never consults
/// the time-to-live — still hands back the stored value.
pub proof fn remove_ignores_expiry<KV, V>(entries: Map<KV, Entry<V>>, k: KV, now: u64, ttl: u64)
    requires
        entries.contains_key(k),
        spec_elapsed(entries[k].last_updated, now) >= ttl,
    ensures
        spec_lookup(entries, k, now, ttl) is None,
        spec_take(entries, k) == Some(entries[k].value),
{
}

/// Overwriting resets the clock: after `k` is written twice, only the second
/// write's value and timestamp matter. The lookup returns the second value
/// for a full fresh time-to-live window measured from the second write, and
/// nothing once that window has elapsed, regardless of the first write.
pub proof fn overwrite_resets_clock<KV, V>(
    entries: Map<KV, Entry<V>>,
    k: KV,
    v1: V,
    t1: u64,
    v2: V,
    t2: u64,
    now: u64,
    ttl: u64,
)
    ensures
        spec_lookup(spec_insert(spec_insert(entries, k, v1, t1), k, v2, t2), k, now, ttl)
            == spec_lookup(spec_insert(entries, k, v2, t2), k, now, ttl),
        spec_elapsed(t2, now) < ttl ==> spec_lookup(
            spec_insert(spec_insert(entries, k, v1, t1), k, v2, t2),
            k,
            now,
            ttl,
        ) == Some(v2),
        spec_elapsed(t2, now) >= ttl ==> spec_lookup(
            spec_insert(spec_insert(entries, k, v1, t1), k, v2, t2),
            k,
            now,
            ttl,
        ) is None,
{
}

/// Remove then get: removal of a present entry hands back its value; after
/// the removal, both a lookup (at any time, under any time-to-live) and a
/// second removal of the same key find nothing.
pub proof fn remove_then_get<KV, V>(entries: Map<KV, Entry<V>>, k: KV, now: u64, ttl: u64)
    requires
        entries.contains_key(k),
    ensures
        spec_take(entries, k) == Some(entries[k].value),
        spec_lookup(entries.remove(k), k, now, ttl) is None,
        spec_take(entries.remove(k), k) is None,
{
}

/// Clearing empties everything: in an empty cache, every key — whatever was
/// inserted before the clear — yields nothing from lookup and nothing from
/// removal.
pub proof fn clear_empties_all<KV, V>(k: KV, now: u64, ttl: u64)
    ensures
        spec_lookup(Map::<KV, Entry<V>>::empty(), k, now, ttl) is None,
        spec_take(Map::<KV, Entry<V>>::empty(), k) is None,
{
}

/// A zero time-to-live cache never returns a value: elapsed time is never
/// negative, so no entry is ever live, however recently it was written.
pub proof fn zero_ttl_never_returns<KV, V>(entries: Map<KV, Entry<V>>, k: KV, now: u64)
    ensures
        spec_lookup(entries, k, now, 0) is None,
{
}

} // verus!
