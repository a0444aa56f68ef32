use glance_mind_agent::adapters::content_pager::{pick_accepted, ContentPager, DuplicateRule};
use glance_mind_agent::adapters::instagram::{InstagramAdapter, V3Outcome};
use glance_mind_agent::adapters::reddit::RedditAdapter;
use glance_mind_agent::adapters::tikhub::{search_offset_param, tiktok_next_cursor, tiktok_offset_from_cursor, TikHubAdapter, TikHubError, VideoPager};
use glance_mind_agent::concurrency::{GlobalRateLimiters, RateLimiter};
use glance_mind_agent::domain::entities::{ConcurrencyConfig, Content};
use glance_mind_agent::domain::errors::GatewayError;
use glance_mind_agent::pagination::{FetchShortfall, LoopEnd, PageDecision, PaginationLoop, StopReason};

fn page(ids: &[&str]) -> Vec<Content> {
    ids.iter().map(|id| Content::new("twitter", id)).collect()
}

#[test]
fn pagination_loop_reaches_count() {
    let mut state = PaginationLoop::new(3);
    let ids: Vec<String> = vec!["a".into(), "b".into()];
    let out = state.accept_page(&ids, Some("c2".into()));
    assert_eq!(out.newly_accepted, ids);
    assert_eq!(out.decision, PageDecision::Continue { cursor: "c2".into() });
    let ids: Vec<String> = vec!["b".into(), "c".into(), "d".into()];
    let out = state.accept_page(&ids, Some("c3".into()));
    assert_eq!(out.newly_accepted, vec!["c".to_string()]);
    assert_eq!(out.decision, PageDecision::Stop(StopReason::ReachedMaxCount));
    assert_eq!(state.shortfall_for(&StopReason::ReachedMaxCount), None);
}

#[test]
fn pagination_loop_detects_cursor_loop_and_empty_pages() {
    let mut state = PaginationLoop::new(50);
    let out = state.accept_page(&["a".to_string()], Some("c1".into()));
    assert_eq!(out.decision, PageDecision::Continue { cursor: "c1".into() });
    let out = state.accept_page(&["b".to_string()], Some("c1".into()));
    assert_eq!(out.decision, PageDecision::Stop(StopReason::CursorLoop));

    let mut state = PaginationLoop::new(50);
    state.accept_page(&[], Some("e1".into()));
    state.accept_page(&[], Some("e2".into()));
    let out = state.accept_page(&[], Some("e3".into()));
    assert_eq!(out.decision, PageDecision::Stop(StopReason::EmptyPageLimit));
    assert_eq!(state.shortfall_for(&StopReason::EmptyPageLimit), Some(FetchShortfall::Exhausted));
}

#[test]
fn content_pager_keeps_last_duplicate_of_a_page() {
    let mut pager = ContentPager::new(10, DuplicateRule::Last);
    let p = vec![
        Content::new("twitter", "a").with_description("first"),
        Content::new("twitter", "b"),
        Content::new("twitter", "a").with_description("second"),
    ];
    let decision = pager.accept_page(p, None);
    assert_eq!(decision, PageDecision::Stop(StopReason::UpstreamExhausted));
    let outcome = pager.finish(LoopEnd::Stop(StopReason::UpstreamExhausted)).unwrap();
    let ids: Vec<&str> = outcome.contents.iter().map(|c| c.content_id.as_str()).collect();
    assert_eq!(ids, vec!["a", "b"]);
    assert_eq!(outcome.contents[0].description, "second");
    assert_eq!(outcome.shortfall, Some(FetchShortfall::Exhausted));
}

#[test]
fn content_pager_partial_and_zero_progress() {
    let mut pager = ContentPager::new(5, DuplicateRule::Last);
    pager.accept_page(page(&["a"]), Some("c2".into()));
    let end = pager.classify_error(GatewayError::RateLimited { retry_after_secs: None }).unwrap();
    let outcome = pager.finish(end).unwrap();
    match outcome.shortfall {
        Some(FetchShortfall::PartialFailure { message }) => assert!(message.to_lowercase().contains("rate")),
        other => panic!("unexpected {other:?}"),
    }

    let pager = ContentPager::new(5, DuplicateRule::Last);
    assert!(pager.classify_error(GatewayError::RateLimited { retry_after_secs: None }).is_err());
    let pager = ContentPager::new(5, DuplicateRule::Last);
    assert!(pager.finish(LoopEnd::Partial(GatewayError::RateLimited { retry_after_secs: None })).is_err());
    let mut pager = ContentPager::new(5, DuplicateRule::Last);
    pager.accept_page(page(&["a"]), Some("c2".into()));
    assert!(pager.classify_error(GatewayError::Api { code: 500, message: "x".into() }).is_err());
}

#[test]
fn pick_accepted_follows_id_order() {
    let picked = pick_accepted(page(&["x", "y", "z"]), &vec!["z".to_string(), "x".to_string(), "z".to_string(), "w".to_string()], DuplicateRule::Last);
    let ids: Vec<&str> = picked.iter().map(|c| c.content_id.as_str()).collect();
    assert_eq!(ids, vec!["z", "x"]);
    let p = vec![
        Content::new("tiktok", "v").with_description("first"),
        Content::new("tiktok", "v").with_description("second"),
    ];
    let first = pick_accepted(p, &vec!["v".to_string()], DuplicateRule::First);
    assert_eq!(first[0].description, "first");
}

#[test]
fn instagram_queries_and_targets() {
    assert_eq!(InstagramAdapter::normalize_v3_query("  food "), "#food");
    assert_eq!(InstagramAdapter::normalize_v3_query("#food"), "#food");
    assert_eq!(InstagramAdapter::comment_target("CxY"), "https://www.instagram.com/p/CxY/");
    assert_eq!(InstagramAdapter::comment_target("https://x/p/1"), "https://x/p/1");
    assert!(matches!(InstagramAdapter::after_v3_error(TikHubError::BadRequest { message: "m".into() }), V3Outcome::FallBackToV2));
    assert!(matches!(InstagramAdapter::after_v3_error(TikHubError::EmptyData), V3Outcome::Fail(GatewayError::EmptyResponse)));
    let (id, url) = InstagramAdapter::content_key(Some("3824"), Some("CxYZ"));
    assert_eq!(id, "CxYZ");
    assert_eq!(url, Some("https://www.instagram.com/p/CxYZ/".to_string()));
    let (id, url) = InstagramAdapter::content_key(Some("3824"), Some(""));
    assert_eq!(id, "3824");
    assert_eq!(url, None);
}

#[test]
fn instagram_convert_error_label() {
    match InstagramAdapter::convert_error(TikHubError::Forbidden { message: "m".into() }) {
        GatewayError::AuthFailed(m) => assert_eq!(m, "Instagram access forbidden: m"),
        other => panic!("unexpected {other:?}"),
    }
}

#[test]
fn reddit_names_and_urls() {
    assert_eq!(RedditAdapter::post_fullname("abc"), "t3_abc");
    assert_eq!(RedditAdapter::post_fullname("t3_abc"), "t3_abc");
    assert_eq!(RedditAdapter::post_url(Some("/r/rust/comments/x/"), Some("https://e")), Some("https://www.reddit.com/r/rust/comments/x/".to_string()));
    assert_eq!(RedditAdapter::post_url(None, Some("https://e")), Some("https://e".to_string()));
    assert_eq!(RedditAdapter::post_text("T", "B"), "T\n\nB");
    match RedditAdapter::convert_error(TikHubError::PaymentRequired { message: "m".into() }) {
        GatewayError::AuthFailed(m) => assert_eq!(m, "Reddit payment required: m"),
        other => panic!("unexpected {other:?}"),
    }
}

#[test]
fn tikhub_errors_and_cursors() {
    assert!(TikHubAdapter::is_fatal_error(&TikHubError::MissingApiKey));
    assert!(TikHubAdapter::is_skippable_error(&TikHubError::NotFound { message: "x".into() }));
    assert!(!TikHubAdapter::is_fatal_error(&TikHubError::EmptyData));
    assert_eq!(tiktok_next_cursor(true, Some(20)), Some("20".to_string()));
    assert_eq!(tiktok_next_cursor(false, Some(20)), None);
    assert_eq!(tiktok_offset_from_cursor("40"), Some(40));
    assert_eq!(tiktok_offset_from_cursor("x"), None);
    assert_eq!(search_offset_param(-5), 0);
    assert_eq!(search_offset_param(40), 40);
    assert_eq!(search_offset_param(1 << 32), 0);
}

#[test]
fn video_pager_stops_at_target() {
    let mut pager = VideoPager::new(3, 2);
    let (cursor, count) = pager.next_request().unwrap();
    assert_eq!((cursor, count), (0, 2));
    let more = pager.accept_page(&["v1".to_string(), "v2".to_string()], Some(2), true);
    assert!(more);
    pager.next_request().unwrap();
    let more = pager.accept_page(&["v2".to_string(), "v3".to_string()], Some(4), true);
    assert!(more);
    assert!(pager.next_request().is_none());
    assert_eq!(pager.collected(), vec!["v1".to_string(), "v2".to_string(), "v3".to_string()]);
}

#[test]
fn rate_limiter_settings() {
    let ai = RateLimiter::ai_default();
    assert_eq!((ai.concurrency, ai.min_interval_ms, ai.name.as_str()), (20, 50, "AI"));
    let t = RateLimiter::tikhub_default();
    assert_eq!((t.concurrency, t.min_interval_ms, t.name.as_str()), (3, 500, "TikHub"));
    assert_eq!(ai.wait_before_call(20), 30);
    assert_eq!(ai.wait_before_call(80), 0);
    assert_eq!(RateLimiter::new(1, 0).wait_before_call(0), 0);
    let config = ConcurrencyConfig::default().with_ai_concurrency(7).with_tikhub_concurrency(2);
    let limiters = GlobalRateLimiters::from_config(&config);
    assert_eq!(limiters.ai.concurrency, 7);
    assert_eq!(limiters.tikhub.concurrency, 2);
    assert_eq!(limiters.tikhub.min_interval_ms, 500);
}
