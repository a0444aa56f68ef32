use glance_mind_agent::config::platform::{
    global_registry, init_global_registry, platform_id, platform_name, PlatformInfo, PlatformRegistry,
};

#[test]
fn test_platform_registry_defaults() {
    let registry = PlatformRegistry::with_defaults();

    assert_eq!(registry.get_name(1), Some("reddit"));
    assert_eq!(registry.get_name(2), Some("tiktok"));
    assert_eq!(registry.get_name(3), Some("facebook"));
    assert_eq!(registry.get_name(4), Some("instagram"));
    assert_eq!(registry.get_name(5), Some("twitter"));
    assert_eq!(registry.get_name(6), Some("youtube"));
    assert_eq!(registry.get_name(999), None);
}

#[test]
fn test_platform_registry_reverse_lookup() {
    let registry = PlatformRegistry::with_defaults();

    assert_eq!(registry.get_id("reddit"), Some(1));
    assert_eq!(registry.get_id("tiktok"), Some(2));
    assert_eq!(registry.get_id("unknown"), None);
}

#[test]
fn test_platform_registry_info() {
    let registry = PlatformRegistry::with_defaults();

    let info = registry.get_info(2).unwrap();
    assert_eq!(info.id, 2);
    assert_eq!(info.name, "tiktok");
    assert_eq!(info.display_name, "TikTok");
    assert!(info.is_active);
}

#[test]
fn test_platform_registry_from_records() {
    let records = vec![
        (10, "custom".to_string(), "Custom Platform".to_string(), true),
        (20, "another".to_string(), "Another Platform".to_string(), false),
    ];

    let registry = PlatformRegistry::from_records(records);

    assert_eq!(registry.get_name(10), Some("custom"));
    assert_eq!(registry.get_name(20), Some("another"));
    assert_eq!(registry.get_id("custom"), Some(10));

    let active = registry.active_platforms();
    assert_eq!(active.len(), 1);
    assert_eq!(active[0].name, "custom");
}

#[test]
fn test_platform_info_builder() {
    let info = PlatformInfo::new(100, "test", "Test Platform").with_active(false);

    assert_eq!(info.id, 100);
    assert_eq!(info.name, "test");
    assert!(!info.is_active);
}

#[test]
fn registry_register_replaces_same_id() {
    let mut registry = PlatformRegistry::new();
    registry.register(PlatformInfo::new(7, "alpha", "Alpha"));
    registry.register(PlatformInfo::new(7, "beta", "Beta"));
    assert_eq!(registry.len(), 1);
    assert_eq!(registry.get_name(7), Some("beta"));
    assert_eq!(registry.get_id("beta"), Some(7));
    assert!(!registry.is_empty());
}

#[test]
fn registry_lookup_by_name_and_listing() {
    let registry = PlatformRegistry::with_defaults();
    let info = registry.get_info_by_name("twitter").unwrap();
    assert_eq!(info.id, 5);
    assert_eq!(registry.all_platforms().len(), 6);
    assert!(registry.get_info_by_name("myspace").is_none());
}

#[test]
fn duplicate_registry_keeps_lookups_and_accepts_registration() {
    let registry = PlatformRegistry::with_defaults();
    let mut copy = registry.duplicate();
    assert_eq!(copy.get_id("twitter"), Some(5));
    assert_eq!(copy.get_name(6), Some("youtube"));
    copy.register(PlatformInfo::new(7, "threads", "Threads"));
    assert_eq!(copy.get_id("threads"), Some(7));
    assert_eq!(registry.get_id("threads"), None);
}

#[test]
fn global_registry_falls_back_to_defaults() {
    let slot: Option<PlatformRegistry> = None;
    let registry = global_registry(&slot);
    assert_eq!(registry.len(), 6);
    assert_eq!(registry.get_id("twitter"), Some(5));
    assert_eq!(platform_id(&slot, "twitter"), None);
    assert_eq!(platform_name(&slot, 5), None);
}

#[test]
fn global_registry_keeps_the_first_installation() {
    let mut slot: Option<PlatformRegistry> = None;
    let records = vec![(10, "custom".to_string(), "Custom Platform".to_string(), true)];
    init_global_registry(&mut slot, PlatformRegistry::from_records(records));
    init_global_registry(&mut slot, PlatformRegistry::with_defaults());
    assert_eq!(platform_id(&slot, "custom"), Some(10));
    assert_eq!(platform_id(&slot, "tiktok"), None);
    assert_eq!(platform_name(&slot, 10), Some("custom"));
    assert_eq!(platform_name(&slot, 2), None);
    let registry = global_registry(&slot);
    assert_eq!(registry.len(), 1);
    assert_eq!(registry.get_name(10), Some("custom"));
}

#[test]
fn all_platforms_lists_each_platform_once() {
    let registry = PlatformRegistry::with_defaults();
    let mut ids: Vec<i32> = registry.all_platforms().iter().map(|p| p.id).collect();
    ids.sort();
    assert_eq!(ids, vec![1, 2, 3, 4, 5, 6]);
    let mut active: Vec<i32> = registry.active_platforms().iter().map(|p| p.id).collect();
    active.sort();
    assert_eq!(active, vec![1, 2, 3, 4, 5, 6]);
}
