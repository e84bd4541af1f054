use bottomless_pit::resource_cache::{ResourceCache, MAX_UNUSED_UPDATES};

#[test]
fn add_and_get() {
    let mut cache: ResourceCache<&str> = ResourceCache::new();
    assert!(cache.get(3).is_none());
    cache.add_item("three", 3);
    let item = cache.get(3).unwrap();
    assert_eq!(item.resource, "three");
    assert_eq!(item.time_since_used, 0);
    assert_eq!(cache[3].resource, "three");
}

#[test]
fn entries_age_and_expire() {
    let mut cache: ResourceCache<u8> = ResourceCache::new();
    cache.add_item(1, 10);
    for n in 1..=MAX_UNUSED_UPDATES {
        cache.cache_update();
        assert_eq!(cache.get(10).unwrap().time_since_used, n);
    }
    cache.cache_update();
    assert!(cache.get(10).is_none());
}

#[test]
fn touching_keeps_entries() {
    let mut cache: ResourceCache<u8> = ResourceCache::new();
    cache.add_item(1, 1);
    cache.add_item(2, 2);
    for _ in 0..50 {
        cache.cache_update();
    }
    assert!(cache.touch(1));
    assert!(!cache.touch(99));
    for _ in 0..20 {
        cache.cache_update();
    }
    assert_eq!(cache.get(1).unwrap().time_since_used, 20);
    assert!(cache.get(2).is_none());
}

#[test]
fn get_mut_changes_entry() {
    let mut cache: ResourceCache<u8> = ResourceCache::new();
    cache.add_item(5, 7);
    cache.get_mut(7).unwrap().time_since_used = 59;
    cache.cache_update();
    assert_eq!(cache.get(7).unwrap().time_since_used, 60);
    cache.cache_update();
    assert!(cache.get(7).is_none());
    assert!(cache.get_mut(7).is_none());
}
