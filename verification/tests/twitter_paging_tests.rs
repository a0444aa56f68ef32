use glance_mind_agent::adapters::content_pager::{ContentPager, DuplicateRule};
use glance_mind_agent::adapters::twitter::{TweetFields, TwitterAdapter};
use glance_mind_agent::domain::entities::FetchOutcome;
use glance_mind_agent::domain::errors::GatewayError;
use glance_mind_agent::pagination::{FetchShortfall, LoopEnd, PageDecision};

fn entry(id: &str, kind: &str) -> (TweetFields, Option<serde_json::Value>) {
    (
        TweetFields {
            tweet_id: Some(id.to_string()),
            tweet_type: Some(kind.to_string()),
            screen_name: Some(format!("user-{id}")),
            author_name: None,
            user_id: None,
            text: id.to_string(),
            like_count: 11,
            reply_count: 2,
            retweet_count: 3,
            quote_count: 1,
            bookmark_count: 4,
            view_count: 20,
            created_at: None,
            created_at_timestamp: None,
            lang: None,
            conversation_id: Some(id.to_string()),
            is_reply: false,
            in_reply_to_status_id: None,
            in_reply_to_user_id: None,
            media_urls: Vec::new(),
            has_media: false,
            user_info: None,
            author: None,
        },
        None,
    )
}

fn tweets(ids: &[&str]) -> Vec<(TweetFields, Option<serde_json::Value>)> {
    ids.iter().map(|id| entry(id, "tweet")).collect()
}

enum Page {
    Served(Vec<(TweetFields, Option<serde_json::Value>)>, Option<&'static str>),
    Failed(GatewayError),
}

/// Runs a search the way the gateway does: each page's search results feed
/// the pager until it stops or a page fails.  Gives the outcome and the
/// cursor each page was requested with.
fn run(pages: Vec<Page>, count: usize) -> (Result<FetchOutcome, GatewayError>, Vec<Option<String>>) {
    let mut pager = ContentPager::new(count, DuplicateRule::Last);
    let mut cursor: Option<String> = None;
    let mut requested = Vec::new();
    for page in pages {
        requested.push(cursor.clone());
        match page {
            Page::Served(entries, next) => {
                let contents = TwitterAdapter::search_results(entries, u32::MAX);
                match pager.accept_page(contents, next.map(|c| c.to_string())) {
                    PageDecision::Stop(reason) => return (pager.finish(LoopEnd::Stop(reason)), requested),
                    PageDecision::Continue { cursor: c } => cursor = Some(c),
                }
            }
            Page::Failed(err) => {
                return match pager.classify_error(err) {
                    Ok(end) => (pager.finish(end), requested),
                    Err(e) => (Err(e), requested),
                };
            }
        }
    }
    panic!("the script ran out of pages");
}

#[test]
fn twitter_paging_forwards_cursors_until_count() {
    let (outcome, requested) = run(
        vec![
            Page::Served(tweets(&["tw-a1", "tw-a2"]), Some("c2")),
            Page::Served(tweets(&["tw-b1", "tw-b2"]), Some("c3")),
            Page::Served(tweets(&["tw-c1", "tw-c2"]), None),
        ],
        6,
    );
    let outcome = outcome.unwrap();
    assert_eq!(outcome.contents.len(), 6);
    assert_eq!(requested, vec![None, Some("c2".to_string()), Some("c3".to_string())]);
}

#[test]
fn twitter_paging_missing_cursor_is_exhausted() {
    let (outcome, _) = run(
        vec![Page::Served(tweets(&["tw-a1"]), Some("c2")), Page::Served(tweets(&["tw-b1"]), None)],
        50,
    );
    let outcome = outcome.unwrap();
    assert_eq!(outcome.shortfall, Some(FetchShortfall::Exhausted));
    assert_eq!(outcome.contents.len(), 2);
}

#[test]
fn twitter_paging_repeated_cursor_stops() {
    let (outcome, requested) = run(
        vec![Page::Served(tweets(&["tw-a1"]), Some("c1")), Page::Served(tweets(&["tw-b1"]), Some("c1"))],
        50,
    );
    assert_eq!(outcome.unwrap().shortfall, Some(FetchShortfall::Exhausted));
    assert_eq!(requested.len(), 2);
}

#[test]
fn twitter_paging_empty_pages_stop_at_limit() {
    let (outcome, _) = run(
        vec![
            Page::Served(Vec::new(), Some("e1")),
            Page::Served(Vec::new(), Some("e2")),
            Page::Served(Vec::new(), Some("e3")),
        ],
        50,
    );
    let outcome = outcome.unwrap();
    assert_eq!(outcome.shortfall, Some(FetchShortfall::Exhausted));
    assert!(outcome.contents.is_empty());
}

#[test]
fn twitter_paging_rate_limit_after_progress_is_partial() {
    let (outcome, _) = run(
        vec![
            Page::Served(tweets(&["tw-a1"]), Some("c2")),
            Page::Failed(GatewayError::RateLimited { retry_after_secs: Some(0) }),
        ],
        50,
    );
    let outcome = outcome.unwrap();
    assert_eq!(outcome.contents.len(), 1);
    match outcome.shortfall {
        Some(FetchShortfall::PartialFailure { message }) => assert!(message.to_lowercase().contains("rate")),
        other => panic!("expected a partial failure, got {other:?}"),
    }
}

#[test]
fn twitter_paging_rate_limit_without_progress_is_err() {
    let (outcome, _) = run(vec![Page::Failed(GatewayError::RateLimited { retry_after_secs: Some(0) })], 50);
    assert!(outcome.is_err());
}

#[test]
fn twitter_paging_reaching_count_has_no_shortfall() {
    let (outcome, _) = run(vec![Page::Served(tweets(&["tw-a1", "tw-a2"]), Some("c2"))], 2);
    let outcome = outcome.unwrap();
    assert_eq!(outcome.contents.len(), 2);
    assert_eq!(outcome.shortfall, None);
}

#[test]
fn twitter_paging_counts_filtered_items() {
    let page = |a: &str, b: &str| vec![entry(a, "tweet"), entry("noise-x", "tombstone"), entry(b, "tweet")];
    let (outcome, requested) = run(
        vec![Page::Served(page("tw-a1", "tw-a2"), Some("c2")), Page::Served(page("tw-b1", "tw-b2"), Some("c3"))],
        4,
    );
    let outcome = outcome.unwrap();
    assert_eq!(outcome.contents.len(), 4);
    assert!(outcome.contents.iter().all(|c| c.content_id != "noise-x"));
    assert_eq!(outcome.shortfall, None);
    assert_eq!(requested.len(), 2);
}

#[test]
fn twitter_paging_hard_error_after_progress_is_err() {
    let (outcome, _) = run(
        vec![
            Page::Served(tweets(&["tw-a1"]), Some("c2")),
            Page::Failed(GatewayError::Api { code: 500, message: "Internal Server Error".to_string() }),
        ],
        50,
    );
    assert!(outcome.is_err());
}
