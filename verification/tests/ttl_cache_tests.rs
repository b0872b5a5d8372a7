use ttl_cache::Cache;

const HOUR_NANOS: u64 = 3_600_000_000_000;

#[test]
fn fresh_insert_is_retrievable() {
    let mut cache: Cache<u64, u64> = Cache::new(HOUR_NANOS);
    cache.insert(1, 42);
    assert_eq!(cache.get(&1), Some(&42));
}

#[test]
fn fresh_insert_is_retrievable_string_values() {
    let mut cache: Cache<u64, String> = Cache::new(HOUR_NANOS);
    cache.insert(7, String::from("seven"));
    assert_eq!(cache.get(&7), Some(&String::from("seven")));
}

#[test]
fn absent_key_yields_nothing() {
    let mut cache: Cache<u64, u64> = Cache::new(HOUR_NANOS);
    assert_eq!(cache.get(&99), None);
    assert_eq!(cache.remove(&99), None);
}

#[test]
fn expiry_boundary() {
    let mut cache: Cache<u64, u64> = Cache::new(100);
    cache.insert_at(1, 5, 1000);
    // One nanosecond short of the window: still live.
    assert_eq!(cache.get_at(&1, 1099), Some(&5));
    // Elapsed time equal to the time-to-live: already expired (strict less-than).
    assert_eq!(cache.get_at(&1, 1100), None);
    assert_eq!(cache.get_at(&1, 2000), None);
}

#[test]
fn clock_reading_before_write_counts_as_live() {
    let mut cache: Cache<u64, u64> = Cache::new(100);
    cache.insert_at(1, 5, 1000);
    // A reading earlier than the write counts as zero elapsed time.
    assert_eq!(cache.get_at(&1, 500), Some(&5));
}

#[test]
fn remove_ignores_expiry() {
    let mut cache: Cache<u64, u64> = Cache::new(100);
    cache.insert_at(1, 7, 0);
    // Expired for get...
    assert_eq!(cache.get_at(&1, 200), None);
    // ...but the stale entry is still physically present, and remove
    // never consults the time-to-live.
    assert_eq!(cache.remove(&1), Some(7));
    assert_eq!(cache.remove(&1), None);
}

#[test]
fn get_does_not_delete_stale_entries() {
    let mut cache: Cache<u64, u64> = Cache::new(100);
    cache.insert_at(1, 7, 0);
    assert_eq!(cache.get_at(&1, 500), None);
    // A second expired read still finds nothing, and the entry is still there.
    assert_eq!(cache.get_at(&1, 500), None);
    assert_eq!(cache.remove(&1), Some(7));
}

#[test]
fn overwrite_resets_clock() {
    let mut cache: Cache<u64, u64> = Cache::new(100);
    cache.insert_at(1, 11, 0);
    cache.insert_at(1, 22, 50);
    // 120 ns after the first write the entry would be expired; measured from
    // the second write only 70 ns have elapsed, so the new value is live.
    assert_eq!(cache.get_at(&1, 120), Some(&22));
    assert_eq!(cache.get_at(&1, 149), Some(&22));
    // The fresh window is measured from the second write: it ends at 150.
    assert_eq!(cache.get_at(&1, 150), None);
}

#[test]
fn overwrite_returns_new_value_immediately() {
    let mut cache: Cache<u64, u64> = Cache::new(HOUR_NANOS);
    cache.insert(1, 11);
    cache.insert(1, 22);
    assert_eq!(cache.get(&1), Some(&22));
}

#[test]
fn remove_then_get() {
    let mut cache: Cache<u64, u64> = Cache::new(HOUR_NANOS);
    cache.insert(1, 9);
    assert_eq!(cache.remove(&1), Some(9));
    assert_eq!(cache.get(&1), None);
    assert_eq!(cache.remove(&1), None);
}

#[test]
fn clear_empties_all() {
    let mut cache: Cache<u64, u64> = Cache::new(HOUR_NANOS);
    let n: u64 = 10;
    let mut k: u64 = 0;
    while k < n {
        cache.insert(k, k * k);
        k += 1;
    }
    cache.clear();
    let mut j: u64 = 0;
    while j < n {
        assert_eq!(cache.get(&j), None);
        assert_eq!(cache.remove(&j), None);
        j += 1;
    }
}

#[test]
fn clear_keeps_the_cache_usable() {
    let mut cache: Cache<u64, u64> = Cache::new(HOUR_NANOS);
    cache.insert(1, 1);
    cache.clear();
    cache.insert(2, 4);
    assert_eq!(cache.get(&2), Some(&4));
}

#[test]
fn zero_ttl_never_returns() {
    let mut cache: Cache<u64, u64> = Cache::new(0);
    cache.insert(1, 3);
    // With a zero time-to-live, elapsed >= 0 is never strictly below 0.
    assert_eq!(cache.get(&1), None);
    // The entry is stored all the same, and remove still hands it back.
    assert_eq!(cache.remove(&1), Some(3));
}

#[test]
fn zero_ttl_expired_even_at_the_write_instant() {
    let mut cache: Cache<u64, u64> = Cache::new(0);
    cache.insert_at(1, 3, 1000);
    assert_eq!(cache.get_at(&1, 1000), None);
}

#[test]
fn distinct_keys_are_independent() {
    let mut cache: Cache<u64, u64> = Cache::new(100);
    cache.insert_at(1, 10, 0);
    cache.insert_at(2, 20, 80);
    assert_eq!(cache.get_at(&1, 120), None);
    assert_eq!(cache.get_at(&2, 120), Some(&20));
    assert_eq!(cache.remove(&1), Some(10));
    assert_eq!(cache.get_at(&2, 120), Some(&20));
}
