use glance_mind_agent::adapters::redis::{
    parse_boolish, CrawlerTaskBuilder, CrawlerTaskExt, FacebookSearchOptions,
    SearchOptionsWrapper, TikTokSearchOptions, TwitterSearchOptions,
};
use glance_mind_agent::config::platform::PlatformRegistry;
use glance_mind_agent::protocol::{CrawlerTask, CrawlerTaskMeta, CrawlerTaskSpec, Platform, TaskConfig, TaskFilters};

fn task_with_search_fields(platform_id: i32, search_limit: i32, search_offset: i32) -> CrawlerTask {
    CrawlerTask {
        meta: Some(CrawlerTaskMeta {
            task_id: 900,
            campaign_id: 42,
            source: "scheduler".to_string(),
            timestamp: 1700000000,
        }),
        spec: Some(CrawlerTaskSpec { platform: platform_id, data_type: 1 }),
        config: Some(TaskConfig {
            keywords: vec!["pagination".to_string()],
            max_count: 10,
            search_offset,
            search_limit,
            filters: Some(TaskFilters { region: Some("US".to_string()) }),
            search_options: None,
        }),
    }
}

#[test]
fn test_crawler_task_ext_methods() {
    let registry = PlatformRegistry::with_defaults();
    let task = CrawlerTaskBuilder::new(123)
        .platform(Platform::Tiktok)
        .keywords(vec!["fitness".to_string(), "workout".to_string()])
        .region("GB")
        .max_count(15)
        .build();

    assert_eq!(task.task_id(), 123);
    assert_eq!(task.platform_id(), 2);
    assert_eq!(task.platform_name_in(&registry), "tiktok");
    assert_eq!(task.keywords().len(), 2);
    assert_eq!(task.region(), Some("GB".to_string()));
    assert_eq!(task.max_count(), 15);
}

#[test]
fn test_crawler_task_to_domain_config() {
    let registry = PlatformRegistry::with_defaults();
    let task = CrawlerTaskBuilder::new(1)
        .platform(Platform::Tiktok)
        .keywords(vec!["fitness".to_string()])
        .region("US")
        .max_count(20)
        .build();

    let config = task.to_domain_task_config(100, &registry, &SearchOptionsWrapper::default());
    assert_eq!(config.platform, "tiktok");
    assert_eq!(config.campaign_id, 100);
    assert_eq!(config.keywords.len(), 1);
    assert_eq!(config.region, Some("US".to_string()));
    assert_eq!(config.max_videos, Some(20));
}

#[test]
fn test_crawler_task_builder() {
    let task = CrawlerTaskBuilder::new(456)
        .platform(Platform::Instagram)
        .keywords(vec!["fashion".to_string()])
        .region("UK")
        .max_count(25)
        .build();

    assert!(task.meta.is_some());
    assert!(task.spec.is_some());
    assert!(task.config.is_some());
    assert_eq!(task.task_id(), 456);
    assert_eq!(task.platform_id(), Platform::Instagram.id());
}

#[test]
fn search_limit_becomes_page_size_hint() {
    let registry = PlatformRegistry::with_defaults();
    let task = task_with_search_fields(2, 7, 0);
    let config = task.to_domain_task_config(42, &registry, &SearchOptionsWrapper::default());
    assert_eq!(config.page_size_hint, Some(7));
}

#[test]
fn search_limit_clamped_to_platform_cap() {
    let registry = PlatformRegistry::with_defaults();
    let table: &[(i32, &str, u32)] = &[
        (2, "tiktok", 20),
        (3, "facebook", 20),
        (1, "reddit", 100),
        (5, "twitter", 100),
        (4, "instagram", 50),
    ];
    for (platform_id, platform_name, cap) in table {
        let task = task_with_search_fields(*platform_id, 500, 0);
        let config = task.to_domain_task_config(42, &registry, &SearchOptionsWrapper::default());
        assert_eq!(config.platform, *platform_name);
        assert_eq!(config.page_size_hint, Some(*cap));
    }
}

#[test]
fn non_positive_search_limit_falls_back_to_none() {
    let registry = PlatformRegistry::with_defaults();
    for limit in [0, -3] {
        let task = task_with_search_fields(2, limit, 0);
        let config = task.to_domain_task_config(42, &registry, &SearchOptionsWrapper::default());
        assert_eq!(config.page_size_hint, None);
    }
}

#[test]
fn search_offset_never_changes_task_config() {
    let registry = PlatformRegistry::with_defaults();
    for offset in [i32::MIN, -1, 0, 5, i32::MAX] {
        let a = task_with_search_fields(2, 7, 0).to_domain_task_config(42, &registry, &SearchOptionsWrapper::default());
        let b = task_with_search_fields(2, 7, offset).to_domain_task_config(42, &registry, &SearchOptionsWrapper::default());
        assert_eq!(a.page_size_hint, b.page_size_hint);
        assert_eq!(a.keywords, b.keywords);
        assert_eq!(a.region, b.region);
        assert_eq!(a.max_videos, b.max_videos);
    }
}

#[test]
fn test_crawler_task_with_search_options() {
    let registry = PlatformRegistry::with_defaults();
    let mut task = task_with_search_fields(2, 10, 0);
    task.meta.as_mut().unwrap().campaign_id = 16;
    let opts = SearchOptionsWrapper {
        tiktok: Some(TikTokSearchOptions {
            region: Some("GLOBAL".to_string()),
            sort_type: Some("1".to_string()),
            publish_time: Some("7".to_string()),
        }),
        facebook: None,
        twitter: None,
    };
    let config = task.to_domain_task_config(16, &registry, &opts);
    assert_eq!(config.campaign_id, 16);
    assert_eq!(config.platform, "tiktok");
    assert_eq!(config.region, Some("US".to_string()));
    assert_eq!(config.sort_type, Some(1));
    assert_eq!(config.publish_time, Some(7));
    assert_eq!(config.max_videos, Some(10));
}

#[test]
fn test_facebook_crawler_task_with_search_options() {
    let registry = PlatformRegistry::with_defaults();
    let mut task = task_with_search_fields(3, 10, 0);
    task.config.as_mut().unwrap().filters = Some(TaskFilters { region: Some("GLOBAL".to_string()) });
    let opts = SearchOptionsWrapper {
        tiktok: None,
        facebook: Some(FacebookSearchOptions {
            search_type: Some("pages".to_string()),
            recent_posts: Some(true),
            location: Some("washington,usa".to_string()),
            start_date: Some("2026-01-01".to_string()),
            end_date: Some("2026-01-31".to_string()),
        }),
        twitter: None,
    };
    let config = task.to_domain_task_config(17, &registry, &opts);
    assert_eq!(config.campaign_id, 17);
    assert_eq!(config.platform, "facebook");
    assert_eq!(config.region, Some("GLOBAL".to_string()));
    assert_eq!(config.extra.get("search_type").and_then(|v| v.as_str()), Some("pages"));
    assert_eq!(config.extra.get("recent_posts").and_then(|v| v.as_bool()), Some(true));
    assert_eq!(config.extra.get("location").and_then(|v| v.as_str()), Some("washington,usa"));
    assert_eq!(config.extra.get("start_date").and_then(|v| v.as_str()), Some("2026-01-01"));
    assert_eq!(config.extra.get("end_date").and_then(|v| v.as_str()), Some("2026-01-31"));
}

#[test]
fn test_twitter_crawler_task_with_search_options() {
    let registry = PlatformRegistry::with_defaults();
    let mut task = task_with_search_fields(5, 10, 0);
    task.config.as_mut().unwrap().filters = Some(TaskFilters { region: Some("GLOBAL".to_string()) });
    let opts = SearchOptionsWrapper {
        tiktok: None,
        facebook: None,
        twitter: Some(TwitterSearchOptions { search_type: Some("Top".to_string()) }),
    };
    let config = task.to_domain_task_config(18, &registry, &opts);
    assert_eq!(config.campaign_id, 18);
    assert_eq!(config.platform, "twitter");
    assert_eq!(config.region, Some("GLOBAL".to_string()));
    assert_eq!(config.extra.get("search_type").and_then(|value| value.as_str()), Some("Top"));
}

#[test]
fn tiktok_search_option_numbers() {
    let tiktok = TikTokSearchOptions {
        region: Some("JP".to_string()),
        sort_type: Some("0".to_string()),
        publish_time: Some("30".to_string()),
    };
    assert_eq!(tiktok.effective_region(), Some("JP".to_string()));
    assert_eq!(tiktok.sort_type_u8(), Some(0));
    assert_eq!(tiktok.publish_time_u8(), Some(30));
    let global = TikTokSearchOptions { region: Some("global".to_string()), sort_type: Some("x".to_string()), publish_time: None };
    assert_eq!(global.effective_region(), Some("US".to_string()));
    assert_eq!(global.sort_type_u8(), None);
}

#[test]
fn boolish_text() {
    assert_eq!(parse_boolish(" Yes "), Some(true));
    assert_eq!(parse_boolish("0"), Some(false));
    assert_eq!(parse_boolish("maybe"), None);
}
