use anytype_rs::cache::{CacheEntry, ResolveCache};

#[test]
fn test_space_cache() {
    let mut cache = ResolveCache::new(300);
    cache.insert_space("Work".to_string(), "sp_123".to_string());

    assert_eq!(cache.get_space("Work"), Some("sp_123".to_string()));
    assert_eq!(cache.get_space("NonExistent"), None);
}

#[test]
fn test_cascade_invalidation() {
    let mut cache = ResolveCache::new(300);

    // Insert space, type, and property
    cache.insert_space("Work".to_string(), "sp_123".to_string());
    cache.insert_type("sp_123".to_string(), "Task".to_string(), "ot_456".to_string());
    cache.insert_property(
        "ot_456".to_string(),
        "Status".to_string(),
        "prop_789".to_string(),
    );
    cache.insert_tag(
        "prop_789".to_string(),
        "Done".to_string(),
        "tag_999".to_string(),
    );

    // Verify all are cached
    assert!(cache.get_space("Work").is_some());
    assert!(cache.get_type("sp_123", "Task").is_some());
    assert!(cache.get_property("ot_456", "Status").is_some());
    assert!(cache.get_tag("prop_789", "Done").is_some());

    // Invalidate space (should cascade)
    cache.invalidate_space("sp_123");

    // Space should be gone, and types should be cascaded
    assert!(cache.get_space("Work").is_none());
    assert!(cache.get_type("sp_123", "Task").is_none());

    // Property cache is keyed by type_id, so space invalidation leaves it
    assert!(cache.get_property("ot_456", "Status").is_some());

    // Now invalidate the type to cascade to properties
    cache.invalidate_type("sp_123", "ot_456");
    assert!(cache.get_property("ot_456", "Status").is_none());
    assert!(cache.get_tag("prop_789", "Done").is_none());
}

#[test]
fn cache_entry_with_zero_ttl_is_expired() {
    let entry = CacheEntry::new("value".to_string(), 0);
    assert_eq!(entry.value, "value");
    assert!(!entry.is_valid());
}

#[test]
fn cache_entry_with_long_ttl_is_valid() {
    let entry = CacheEntry::new("value".to_string(), 3600);
    assert!(entry.is_valid());
}

#[test]
fn expired_entries_read_as_missing() {
    let mut cache = ResolveCache::new(0);
    cache.insert_space("Work".to_string(), "sp_1".to_string());
    assert_eq!(cache.get_space("Work"), None);
    cache.insert_object("sp_1".to_string(), "Doc".to_string(), "obj_1".to_string());
    assert_eq!(cache.get_object("sp_1", "Doc"), None);
}

#[test]
fn invalidate_object_list_and_tag_drop_only_their_key() {
    let mut cache = ResolveCache::new(300);
    cache.insert_object("sp".to_string(), "A".to_string(), "o1".to_string());
    cache.insert_object("sp".to_string(), "B".to_string(), "o2".to_string());
    cache.insert_list("sp".to_string(), "L".to_string(), "l1".to_string());
    cache.insert_tag("p".to_string(), "T".to_string(), "t1".to_string());
    cache.invalidate_object("sp", "A");
    assert_eq!(cache.get_object("sp", "A"), None);
    assert_eq!(cache.get_object("sp", "B"), Some("o2".to_string()));
    cache.invalidate_list("sp", "L");
    assert_eq!(cache.get_list("sp", "L"), None);
    cache.invalidate_tag("p", "T");
    assert_eq!(cache.get_tag("p", "T"), None);
}

#[test]
fn invalidate_property_cascades_to_its_tags_only() {
    let mut cache = ResolveCache::new(300);
    cache.insert_property("ty".to_string(), "Status".to_string(), "p1".to_string());
    cache.insert_property("ty".to_string(), "Prio".to_string(), "p2".to_string());
    cache.insert_tag("p1".to_string(), "Done".to_string(), "t1".to_string());
    cache.insert_tag("p2".to_string(), "High".to_string(), "t2".to_string());
    cache.invalidate_property("ty", "p1");
    assert_eq!(cache.get_property("ty", "Status"), None);
    assert_eq!(cache.get_property("ty", "Prio"), Some("p2".to_string()));
    assert_eq!(cache.get_tag("p1", "Done"), None);
    assert_eq!(cache.get_tag("p2", "High"), Some("t2".to_string()));
}

#[test]
fn clear_all_empties_every_map() {
    let mut cache = ResolveCache::new(300);
    cache.insert_space("W".to_string(), "s".to_string());
    cache.insert_type("s".to_string(), "T".to_string(), "t".to_string());
    cache.insert_list("s".to_string(), "L".to_string(), "l".to_string());
    cache.clear_all();
    assert_eq!(cache.get_space("W"), None);
    assert_eq!(cache.get_type("s", "T"), None);
    assert_eq!(cache.get_list("s", "L"), None);
}

#[test]
fn insert_replaces_an_earlier_id() {
    let mut cache = ResolveCache::new(300);
    cache.insert_space("W".to_string(), "s1".to_string());
    cache.insert_space("W".to_string(), "s2".to_string());
    assert_eq!(cache.get_space("W"), Some("s2".to_string()));
}

#[test]
fn test_entry_valid_at_instants_before_its_expiry() {
    let before = std::time::Instant::now();
    let entry = CacheEntry::new("value".to_string(), 60);
    assert!(entry.is_valid_at(&before));
    assert!(entry.is_valid());
    let later = before + std::time::Duration::from_secs(120);
    assert!(!entry.is_valid_at(&later));
    assert!(!entry.is_valid_at(&entry.expires_at));
}

#[test]
fn test_entry_made_at_an_instant_expires_its_ttl_later() {
    let now = std::time::Instant::now();
    let entry = CacheEntry::new_at(7u32, 30, now);
    assert_eq!(entry.value, 7);
    assert_eq!(entry.expires_at, now + std::time::Duration::from_secs(30));
    assert!(entry.is_valid_at(&(now + std::time::Duration::from_secs(29))));
    assert!(!entry.is_valid_at(&(now + std::time::Duration::from_secs(30))));
    let unbounded = CacheEntry::new_at(1u32, u64::MAX, now);
    assert_eq!(unbounded.expires_at, now);
}

#[test]
fn test_read_within_ttl_hits_and_after_it_misses() {
    let t0 = std::time::Instant::now();
    let mut cache = ResolveCache::new(60);
    cache.insert_space_at("Work".to_string(), "sp_1".to_string(), t0);
    cache.insert_type_at("sp_1".to_string(), "Task".to_string(), "ty_1".to_string(), t0);
    let within = t0 + std::time::Duration::from_secs(59);
    let after = t0 + std::time::Duration::from_secs(60);
    assert_eq!(cache.get_space_at("Work", &within), Some("sp_1".to_string()));
    assert_eq!(cache.get_type_at("sp_1", "Task", &within), Some("ty_1".to_string()));
    assert_eq!(cache.get_space_at("Work", &after), None);
    // The expired entry was dropped, so even an earlier reading finds nothing now.
    assert_eq!(cache.get_space_at("Work", &within), None);
    assert_eq!(cache.get_type_at("sp_1", "Task", &within), Some("ty_1".to_string()));
    assert_eq!(cache.get_space("Work"), None);
}
