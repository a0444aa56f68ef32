use glance_mind_agent::adapters::facebook::{
    CommentCrawl, CursorGuard, FacebookAdapter, FacebookCommentFields, FacebookPostFields,
    FacebookSearchPlan, PageResolver, PostCrawl, RateLimitStep, ResolveStep,
};
use glance_mind_agent::domain::entities::{Comment, Content, SearchOptions};
use glance_mind_agent::domain::errors::GatewayError;
use glance_mind_agent::domain::extra::ExtraValue;

fn comment_fields(legacy: Option<&str>) -> FacebookCommentFields {
    FacebookCommentFields {
        legacy_comment_id: legacy.map(|s| s.to_string()),
        comment_id: None,
        author_id: Some("user-1".to_string()),
        author_name: Some("Sticker User".to_string()),
        depth: Some(0),
        message: None,
        sticker_label: Some("Sticker reply".to_string()),
        parent_comment_id: None,
        reactions_count: Some(2),
        replies_count: Some(0),
        created_time: Some(1700000000),
    }
}

#[test]
fn test_discovery_query_with_location() {
    let query = FacebookAdapter::discovery_query("travel", Some("beijing,china".to_string()));
    assert_eq!(query, "travel beijing,china");
}

#[test]
fn discovery_query_ignores_blank_location() {
    assert_eq!(FacebookAdapter::discovery_query("travel", Some("   ".to_string())), "travel");
    assert_eq!(FacebookAdapter::discovery_query("travel", Some(" rome ".to_string())), "travel rome");
    assert_eq!(FacebookAdapter::discovery_query("travel", None), "travel");
}

#[test]
fn test_filter_posts_by_date_range() {
    let options = SearchOptions::new("travel")
        .with_count(10)
        .with_extra_value("start_date", ExtraValue::string("2026-01-10"))
        .with_extra_value("end_date", ExtraValue::string("2026-01-12"));
    let posts = vec![
        Content::new("facebook", "1")
            .with_created_at(FacebookAdapter::parse_date("2026-01-10", false).unwrap()),
        Content::new("facebook", "2")
            .with_created_at(FacebookAdapter::parse_date("2026-01-13", false).unwrap()),
    ];

    let filtered = FacebookAdapter::filter_posts(posts, &options);
    assert_eq!(filtered.len(), 1);
    assert_eq!(filtered[0].content_id, "1");
}

#[test]
fn parse_date_gives_day_bounds() {
    assert_eq!(FacebookAdapter::parse_date("1970-01-02", false), Some(86400));
    assert_eq!(FacebookAdapter::parse_date("1970-01-01", true), Some(86399));
    assert_eq!(FacebookAdapter::parse_date("not a date", false), None);
}

#[test]
fn filter_orders_newest_first_stably_and_truncates() {
    let posts = vec![
        Content::new("facebook", "a").with_created_at(10),
        Content::new("facebook", "b"),
        Content::new("facebook", "c").with_created_at(30),
        Content::new("facebook", "d").with_created_at(10),
    ];
    let out = FacebookAdapter::filter_posts_between(posts, None, None, true, 3);
    let ids: Vec<&str> = out.iter().map(|c| c.content_id.as_str()).collect();
    assert_eq!(ids, vec!["c", "a", "d"]);

    let posts = vec![Content::new("facebook", "x"), Content::new("facebook", "y")];
    let out = FacebookAdapter::filter_posts_between(posts, None, None, false, 1);
    assert_eq!(out.len(), 1);
    assert_eq!(out[0].content_id, "x");
}

#[test]
fn test_convert_comment_uses_sticker_label() {
    let comment = comment_fields(Some("123"));
    let converted = FacebookAdapter::convert_comment(comment, "post-1", serde_json::Value::Null).unwrap();
    assert_eq!(converted.text, "Sticker reply");
    assert_eq!(converted.comment_id, "123");
    assert_eq!(converted.likes, 2);
    assert!(!converted.is_reply);
}

#[test]
fn convert_comment_without_id_or_text() {
    assert!(FacebookAdapter::convert_comment(comment_fields(None), "p", serde_json::Value::Null).is_none());
    let mut fields = comment_fields(Some("9"));
    fields.sticker_label = None;
    fields.depth = Some(1);
    let converted = FacebookAdapter::convert_comment(fields, "p", serde_json::Value::Null).unwrap();
    assert_eq!(converted.text, "[facebook comment without text]");
    assert!(converted.is_reply);
}

#[test]
fn convert_post_fields() {
    let post = FacebookPostFields {
        post_id: Some("p1".to_string()),
        author_id: None,
        author_name: Some("Page".to_string()),
        message: None,
        message_rich: Some("rich".to_string()),
        url: Some("https://fb/p1".to_string()),
        reactions_count: Some(5),
        comments_count: None,
        reshare_count: Some(2),
        timestamp: Some(99),
    };
    let content = FacebookAdapter::convert_content(post, serde_json::Value::Null).unwrap();
    assert_eq!(content.author, "Page");
    assert_eq!(content.description, "rich");
    assert_eq!(content.engagement.likes, 5);
    assert_eq!(content.engagement.comments, 0);
    assert_eq!(content.created_at, Some(99));
}

#[test]
fn http_errors_map_by_status() {
    assert!(matches!(FacebookAdapter::map_http_error(403, "no".into(), None), GatewayError::AuthFailed(m) if m == "no"));
    assert!(matches!(FacebookAdapter::map_http_error(404, "x".into(), None), GatewayError::NotFound(_)));
    assert!(matches!(FacebookAdapter::map_http_error(422, "x".into(), None), GatewayError::InvalidParams(_)));
    assert!(matches!(FacebookAdapter::map_http_error(429, "x".into(), Some(3)), GatewayError::RateLimited { retry_after_secs: Some(3) }));
    assert!(matches!(FacebookAdapter::map_http_error(500, "x".into(), None), GatewayError::Api { code: 500, .. }));
}

#[test]
fn rate_limit_retries_use_server_delay_then_fallbacks() {
    assert_eq!(FacebookAdapter::rate_limit_step(0, 429, Some(7)), RateLimitStep::RetryAfter { secs: 7 });
    assert_eq!(FacebookAdapter::rate_limit_step(1, 429, None), RateLimitStep::RetryAfter { secs: 5 });
    assert_eq!(FacebookAdapter::rate_limit_step(2, 429, None), RateLimitStep::RetryAfter { secs: 10 });
    assert_eq!(FacebookAdapter::rate_limit_step(3, 429, None), RateLimitStep::Done);
    assert_eq!(FacebookAdapter::rate_limit_step(0, 200, None), RateLimitStep::Done);
}

#[test]
fn urls_and_queries() {
    let adapter = FacebookAdapter::new("k", "h", "https://api.example//");
    assert_eq!(adapter.build_url("//search/posts"), "https://api.example/search/posts");
    let query = vec![("query".to_string(), "travel".to_string())];
    let with = FacebookAdapter::append_cursor_query(&query, Some("abc"));
    assert_eq!(with.len(), 2);
    assert_eq!(with[1], ("cursor".to_string(), "abc".to_string()));
    assert_eq!(FacebookAdapter::append_cursor_query(&query, Some("  ")).len(), 1);
    assert_eq!(FacebookAdapter::next_cursor(Some(" ".to_string())), None);
    assert_eq!(FacebookAdapter::next_cursor(Some("c2".to_string())), Some("c2".to_string()));
    assert_eq!(
        FacebookAdapter::body_message(None, Some("{\"x\":1}".to_string()), "{}".to_string()),
        "{\"x\":1}"
    );
}

#[test]
fn settings_from_environment_values() {
    assert!(matches!(FacebookAdapter::from_env_values(None, None, None), Err(GatewayError::AuthFailed(_))));
    let a = FacebookAdapter::from_env_values(Some("key".to_string()), None, None).unwrap();
    assert_eq!(a.api_host, "facebook-scraper3.p.rapidapi.com");
    assert_eq!(a.base_url, "https://facebook-scraper3.p.rapidapi.com");
}

#[test]
fn extra_options_as_text_and_flags() {
    let options = SearchOptions::new("q")
        .with_extra_value("recent_posts", ExtraValue::string(" YES "))
        .with_extra_value("n", ExtraValue::Int(-4))
        .with_extra_value("b", ExtraValue::Bool(false));
    assert_eq!(FacebookAdapter::extra_bool(&options, "recent_posts"), Some(true));
    assert_eq!(FacebookAdapter::extra_string(&options, "n"), Some("-4".to_string()));
    assert_eq!(FacebookAdapter::extra_string(&options, "b"), Some("false".to_string()));
    assert_eq!(FacebookAdapter::extra_bool(&options, "n"), None);
}

#[test]
fn search_plans() {
    let options = SearchOptions::new("travel").with_extra_value("location", ExtraValue::string("rome"));
    assert!(matches!(FacebookAdapter::search_plan(&options), Ok(FacebookSearchPlan::PostSearch { query }) if query == "travel rome"));
    let options = SearchOptions::new("travel").with_extra_value("search_type", ExtraValue::string("places"));
    assert!(matches!(FacebookAdapter::search_plan(&options), Ok(FacebookSearchPlan::CandidatePages { path, .. }) if path == "/search/places"));
    let options = SearchOptions::new("travel").with_extra_value("search_type", ExtraValue::string("videos"));
    assert!(matches!(FacebookAdapter::search_plan(&options), Err(GatewayError::InvalidParams(m)) if m == "unsupported facebook search_type: videos"));
    let options = SearchOptions::new("12345").with_extra_value("mode", ExtraValue::string("page"));
    assert!(matches!(FacebookAdapter::search_plan(&options), Ok(FacebookSearchPlan::PagePosts)));
    let options = SearchOptions::new("x").with_extra_value("mode", ExtraValue::string("bogus"));
    assert!(matches!(FacebookAdapter::search_plan(&options), Err(GatewayError::InvalidParams(m)) if m == "unsupported facebook search mode: bogus"));
    assert!(FacebookAdapter::is_numeric_page_id("12345"));
    assert!(!FacebookAdapter::is_numeric_page_id("NatGeo"));
}

#[test]
fn cursor_guard_stops_on_repeats_and_empty_runs() {
    let mut guard = CursorGuard::new();
    assert_eq!(guard.advance(3, Some("c1".to_string())), Some("c1".to_string()));
    assert_eq!(guard.advance(3, Some("c1".to_string())), None);
    let mut guard = CursorGuard::new();
    assert_eq!(guard.advance(0, Some("e1".to_string())), Some("e1".to_string()));
    assert_eq!(guard.advance(0, Some("e2".to_string())), Some("e2".to_string()));
    assert_eq!(guard.advance(0, Some("e3".to_string())), None);
}

#[test]
fn post_crawl_dedupes_and_stops_at_count() {
    let mut crawl = PostCrawl::new(None, None, false, 2);
    let next = crawl.accept_page(vec![Content::new("facebook", "p1")], Some("c2".to_string()));
    assert_eq!(next, Some("c2".to_string()));
    assert_eq!(crawl.remaining_for_page(), 1);
    let next = crawl.accept_page(
        vec![Content::new("facebook", "p1"), Content::new("facebook", "p2")],
        Some("c3".to_string()),
    );
    assert_eq!(next, None);
    assert!(crawl.reached_limit());
    let posts = crawl.finish();
    assert_eq!(posts.len(), 2);
}

#[test]
fn post_crawl_errors() {
    let crawl = PostCrawl::new(None, None, false, 5);
    assert!(crawl.on_error(GatewayError::RateLimited { retry_after_secs: None }).is_err());
    let mut crawl = PostCrawl::new(None, None, false, 5);
    crawl.add_posts(vec![Content::new("facebook", "p1")]);
    assert!(crawl.on_error(GatewayError::RateLimited { retry_after_secs: None }).is_ok());
    assert!(crawl.on_error(GatewayError::Network("x".into())).is_err());
}

#[test]
fn page_resolver_steps() {
    let mut resolver = PageResolver::new();
    assert_eq!(resolver.accept_page(vec![None], Some("c1".to_string())), ResolveStep::Next("c1".to_string()));
    assert_eq!(resolver.accept_page(vec![None, Some("42".to_string())], None), ResolveStep::Found("42".to_string()));
    let mut resolver = PageResolver::new();
    assert_eq!(resolver.accept_page(vec![], None), ResolveStep::NotFound);
    let mut resolver = PageResolver::new();
    assert_eq!(resolver.accept_page(vec![], Some("a".to_string())), ResolveStep::Next("a".to_string()));
    assert_eq!(resolver.accept_page(vec![], Some("b".to_string())), ResolveStep::Next("b".to_string()));
    assert_eq!(resolver.accept_page(vec![], Some("c".to_string())), ResolveStep::NotFound);
}

fn fc(id: &str) -> Comment {
    Comment::new("facebook", id, "post")
}

#[test]
fn comment_crawl_dedupes_overlapping_pages() {
    let mut crawl = CommentCrawl::new(10);
    assert_eq!(crawl.next_request(), Some((None, 10)));
    crawl.accept_page(vec![fc("a"), fc("b")], true, Some("c2".to_string()));
    assert_eq!(crawl.next_request(), Some((Some("c2".to_string()), 8)));
    crawl.accept_page(vec![fc("b"), fc("c")], true, Some("c3".to_string()));
    crawl.accept_page(vec![fc("d")], true, Some("c3".to_string()));
    assert!(crawl.next_request().is_none());
    let ids: Vec<String> = crawl.into_comments().into_iter().map(|c| c.comment_id).collect();
    assert_eq!(ids, vec!["a", "b", "c", "d"]);
}

#[test]
fn comment_crawl_truncates_and_keeps_partial_on_rate_limit() {
    let mut crawl = CommentCrawl::new(2);
    crawl.accept_page(vec![fc("a"), fc("b"), fc("c")], true, Some("c2".to_string()));
    assert!(crawl.next_request().is_none());
    assert_eq!(crawl.into_comments().len(), 2);

    let mut crawl = CommentCrawl::new(5);
    assert!(crawl.on_error(GatewayError::RateLimited { retry_after_secs: None }).is_err());
    crawl.accept_page(vec![fc("a")], true, Some("c2".to_string()));
    assert!(crawl.on_error(GatewayError::RateLimited { retry_after_secs: None }).is_ok());
    assert!(crawl.next_request().is_none());
}
