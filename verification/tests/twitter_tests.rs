use glance_mind_agent::adapters::comments::{CollectMode, CommentCollector};
use glance_mind_agent::adapters::tikhub::TikHubError;
use glance_mind_agent::adapters::twitter::{TweetFields, TweetUser, TwitterAdapter};
use glance_mind_agent::domain::entities::{Comment, Content, SearchOptions};
use glance_mind_agent::domain::errors::GatewayError;
use glance_mind_agent::domain::extra::ExtraValue;

#[test]
fn test_normalize_search_type_known_values() {
    assert_eq!(TwitterAdapter::normalize_search_type("top"), "Top");
    assert_eq!(TwitterAdapter::normalize_search_type("Top"), "Top");
    assert_eq!(TwitterAdapter::normalize_search_type("TOP"), "Top");
    assert_eq!(TwitterAdapter::normalize_search_type("latest"), "Latest");
    assert_eq!(TwitterAdapter::normalize_search_type("Latest"), "Latest");
    assert_eq!(TwitterAdapter::normalize_search_type("media"), "Media");
    assert_eq!(TwitterAdapter::normalize_search_type("people"), "People");
    assert_eq!(TwitterAdapter::normalize_search_type("lists"), "Lists");
}

#[test]
fn test_normalize_search_type_unknown_defaults_to_latest() {
    assert_eq!(TwitterAdapter::normalize_search_type("unknown"), "Latest");
    assert_eq!(TwitterAdapter::normalize_search_type(""), "Latest");
    assert_eq!(TwitterAdapter::normalize_search_type("  "), "Latest");
}

#[test]
fn test_search_type_from_options_prefers_extra() {
    let options = SearchOptions::new("rust").with_extra_value("search_type", ExtraValue::string("media"));
    assert_eq!(TwitterAdapter::search_type_from_options(&options), "Media");
}

#[test]
fn search_type_from_region_and_default() {
    let options = SearchOptions::new("rust").with_region(" people ");
    assert_eq!(TwitterAdapter::search_type_from_options(&options), "People");
    let options = SearchOptions::new("rust").with_region("US");
    assert_eq!(TwitterAdapter::search_type_from_options(&options), "Latest");
    let options = SearchOptions::new("rust");
    assert_eq!(TwitterAdapter::search_type_from_options(&options), "Latest");
    let options = SearchOptions::new("rust")
        .with_region("top")
        .with_extra_value("search_type", ExtraValue::Bool(true));
    assert_eq!(TwitterAdapter::search_type_from_options(&options), "Top");
}

#[test]
fn test_is_search_result_tweet_filters_non_tweet_type() {
    assert!(!TwitterAdapter::is_search_result_tweet(Some("123"), Some("tombstone")));
}

#[test]
fn test_is_search_result_tweet_accepts_tweet_type() {
    assert!(TwitterAdapter::is_search_result_tweet(Some("123"), Some("tweet")));
}

#[test]
fn test_is_search_result_tweet_accepts_none_type() {
    assert!(TwitterAdapter::is_search_result_tweet(Some("123"), None));
}

#[test]
fn test_is_search_result_tweet_rejects_no_id() {
    assert!(!TwitterAdapter::is_search_result_tweet(None, Some("tweet")));
}

#[test]
fn dedupe_contents_keeps_first_and_limits() {
    let contents = vec![
        Content::new("twitter", "1").with_description("pinned"),
        Content::new("twitter", "2"),
        Content::new("twitter", "1").with_description("timeline copy"),
        Content::new("twitter", "3"),
    ];
    let out = TwitterAdapter::dedupe_contents(contents, 10);
    let ids: Vec<&str> = out.iter().map(|c| c.content_id.as_str()).collect();
    assert_eq!(ids, vec!["1", "2", "3"]);
    assert_eq!(out[0].description, "pinned");

    let contents = vec![Content::new("twitter", "1"), Content::new("twitter", "2"), Content::new("twitter", "3")];
    assert_eq!(TwitterAdapter::dedupe_contents(contents, 2).len(), 2);
    assert!(TwitterAdapter::dedupe_contents(vec![Content::new("twitter", "1")], 0).is_empty());
}

#[test]
fn twitter_convert_error_labels() {
    match TwitterAdapter::convert_error(TikHubError::Unauthorized { message: "bad".into() }) {
        GatewayError::AuthFailed(m) => assert_eq!(m, "Twitter auth failed: bad"),
        other => panic!("unexpected {other:?}"),
    }
    match TwitterAdapter::convert_error(TikHubError::ServerError { status: 502, message: "x".into() }) {
        GatewayError::Api { code, message } => {
            assert_eq!(code, 502);
            assert_eq!(message, "Server error: x");
        }
        other => panic!("unexpected {other:?}"),
    }
}

fn c(id: &str) -> Comment {
    Comment::new("twitter", id, "root")
}

#[test]
fn thread_collector_skips_root_dedupes_and_caps() {
    let mut collector = CommentCollector::new(CollectMode::Thread { root_id: "root".to_string() }, 3);
    let (cursor, count) = collector.next_request().unwrap();
    assert_eq!(cursor, None);
    assert_eq!(count, 3);
    collector.accept_page(vec![c("root"), c("a"), c("b"), c("a")], true, Some("n1".to_string()));
    assert_eq!(collector.comments().len(), 2);
    let (cursor, count) = collector.next_request().unwrap();
    assert_eq!(cursor, Some("n1".to_string()));
    assert_eq!(count, 1);
    collector.accept_page(vec![c("b"), c("c"), c("d")], true, Some("n2".to_string()));
    assert!(collector.next_request().is_none());
    let ids: Vec<String> = collector.into_comments().into_iter().map(|x| x.comment_id).collect();
    assert_eq!(ids, vec!["a", "b", "c"]);
}

#[test]
fn thread_collector_stops_on_empty_page_or_no_more() {
    let mut collector = CommentCollector::new(CollectMode::Thread { root_id: "root".to_string() }, 100);
    collector.accept_page(vec![], true, Some("n1".to_string()));
    assert!(collector.next_request().is_none());

    let mut collector = CommentCollector::new(CollectMode::Append, 100);
    collector.accept_page(vec![c("a"), c("a")], false, Some("n1".to_string()));
    assert!(collector.next_request().is_none());
    assert_eq!(collector.into_comments().len(), 2);
}

#[test]
fn append_collector_asks_at_most_fifty() {
    let collector = CommentCollector::new(CollectMode::Append, 120);
    assert_eq!(collector.next_request(), Some((None, 50)));
}

fn blank_tweet(id: &str, screen_name: &str, text: &str) -> TweetFields {
    TweetFields {
        tweet_id: Some(id.to_string()),
        tweet_type: Some("tweet".to_string()),
        screen_name: Some(screen_name.to_string()),
        author_name: None,
        user_id: None,
        text: text.to_string(),
        like_count: 0,
        reply_count: 0,
        retweet_count: 0,
        quote_count: 0,
        bookmark_count: 0,
        view_count: 0,
        created_at: None,
        created_at_timestamp: None,
        lang: None,
        conversation_id: None,
        is_reply: false,
        in_reply_to_status_id: None,
        in_reply_to_user_id: None,
        media_urls: Vec::new(),
        has_media: false,
        user_info: None,
        author: None,
    }
}

#[test]
fn twitter_test_convert_content() {
    let mut tweet = blank_tweet("123456", "testuser", "Test tweet content");
    tweet.created_at = Some("Fri Jan 09 22:17:51 +0000 2026".to_string());
    tweet.lang = Some("en".to_string());
    tweet.bookmark_count = 5;
    tweet.like_count = 100;
    tweet.quote_count = 10;
    tweet.reply_count = 25;
    tweet.retweet_count = 50;
    tweet.view_count = 1000;
    tweet.author_name = Some("Test User".to_string());
    tweet.user_id = Some("u123".to_string());
    tweet.user_info = Some(TweetUser {
        description: None,
        followers_count: Some(500),
        avatar: None,
        verified: Some(false),
        blue_verified: Some(false),
    });

    let content = TwitterAdapter::convert_content(tweet, None);
    assert_eq!(content.platform, "twitter");
    assert_eq!(content.content_id, "123456");
    assert_eq!(content.author, "testuser");
    assert_eq!(content.engagement.likes, 100);
    assert_eq!(content.engagement.views, 1000);
    assert_eq!(content.engagement.shares, 50);
}

#[test]
fn twitter_test_convert_comment() {
    let mut tweet = blank_tweet("reply123", "replier", "Great tweet!");
    tweet.lang = Some("en".to_string());
    tweet.like_count = 50;
    tweet.reply_count = 5;
    tweet.in_reply_to_status_id = Some("123456".to_string());
    tweet.in_reply_to_user_id = Some("u123".to_string());
    tweet.is_reply = true;

    let comment = TwitterAdapter::convert_comment(tweet, "123456", None);
    assert_eq!(comment.platform, "twitter");
    assert_eq!(comment.comment_id, "reply123");
    assert_eq!(comment.content_id, "123456");
    assert_eq!(comment.text, "Great tweet!");
    assert_eq!(comment.author, "replier");
    assert_eq!(comment.likes, 50);
    assert!(comment.is_reply);
}

#[test]
fn tweet_url_with_and_without_handle() {
    assert_eq!(TwitterAdapter::tweet_url("42", "rustlang"), "https://twitter.com/rustlang/status/42");
    assert_eq!(TwitterAdapter::tweet_url("42", ""), "https://twitter.com/i/web/status/42");
    let content = TwitterAdapter::convert_content(blank_tweet("7", "", "x"), None);
    assert_eq!(content.url.as_deref(), Some("https://twitter.com/i/web/status/7"));
    assert_eq!(content.author, "");
}

#[test]
fn convert_comment_truncates_reply_count_and_keeps_raw() {
    let mut tweet = blank_tweet("r1", "a", "hi");
    tweet.reply_count = (1i64 << 32) + 3;
    let raw = serde_json::Value::String("doc".to_string());
    let comment = TwitterAdapter::convert_comment(tweet, "root", Some(raw.clone()));
    assert_eq!(comment.reply_count, 3);
    assert_eq!(comment.raw_data, Some(raw));
}

#[test]
fn user_timeline_puts_pinned_first_and_dedupes() {
    let pinned = Content::new("twitter", "p");
    let timeline = vec![
        Content::new("twitter", "a"),
        Content::new("twitter", "p"),
        Content::new("twitter", "b"),
        Content::new("twitter", "c"),
    ];
    let r = TwitterAdapter::user_timeline(Some(pinned), timeline.clone(), 3);
    let ids: Vec<&str> = r.iter().map(|c| c.content_id.as_str()).collect();
    assert_eq!(ids, vec!["p", "a", "b"]);
    let r = TwitterAdapter::user_timeline(None, timeline, 2);
    let ids: Vec<&str> = r.iter().map(|c| c.content_id.as_str()).collect();
    assert_eq!(ids, vec!["a", "p"]);
    assert!(TwitterAdapter::user_timeline(None, Vec::new(), 5).is_empty());
}

#[test]
fn thread_comments_skip_root_and_cap() {
    let thread = vec![
        (blank_tweet("root", "op", "the root tweet"), None),
        (blank_tweet("r1", "u1", "one"), None),
        (blank_tweet("r2", "u2", "two"), None),
        (blank_tweet("r3", "u3", "three"), None),
    ];
    let comments = TwitterAdapter::thread_comments(thread.clone(), "root", 2);
    let ids: Vec<&str> = comments.iter().map(|c| c.comment_id.as_str()).collect();
    assert_eq!(ids, vec!["r1", "r2"]);
    assert!(comments.iter().all(|c| c.content_id == "root"));
    let all = TwitterAdapter::thread_comments(thread, "root", 10);
    assert_eq!(all.len(), 3);
}

#[test]
fn search_results_filter_non_tweets_and_cap() {
    let mut user = blank_tweet("u1", "someone", "profile");
    user.tweet_type = Some("user".to_string());
    let mut untyped = blank_tweet("t2", "b", "two");
    untyped.tweet_type = None;
    let mut no_id = blank_tweet("x", "c", "three");
    no_id.tweet_id = None;
    let timeline = vec![
        (blank_tweet("t1", "a", "one"), None),
        (user, None),
        (no_id, None),
        (untyped, None),
        (blank_tweet("t3", "d", "four"), None),
    ];
    let results = TwitterAdapter::search_results(timeline.clone(), 2);
    let ids: Vec<&str> = results.iter().map(|c| c.content_id.as_str()).collect();
    assert_eq!(ids, vec!["t1", "t2"]);
    let all = TwitterAdapter::search_results(timeline.clone(), 10);
    assert_eq!(all.len(), 3);
    let page = TwitterAdapter::timeline_contents(timeline, 4);
    assert_eq!(page.len(), 4);
    assert_eq!(page[1].content_id, "u1");
}
