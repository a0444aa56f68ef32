use glance_mind_agent::adapters::mock::{FixtureMockAdapter, FixtureRequest, InMemoryRepository, MockAiAnalyzer};
use glance_mind_agent::adapters::tikhub::{AwemeFields, TikTokCommentFields};
use glance_mind_agent::domain::entities::{Comment, Content, Engagement, KeywordType, ReplySuggestion, SearchOptions};
use glance_mind_agent::fixtures::FixtureLoader;
use glance_mind_agent::ports::{CampaignConfig, CampaignStatus, CommentStatus, TaskInfo, TaskStatus};

#[test]
fn test_in_memory_content_repository() {
    let mut repo = InMemoryRepository::new();

    let content = Content::new("tiktok", "v123")
        .with_author("testuser")
        .with_description("Test video");

    let result = repo.save_content(&content, Some(1), Some(1));
    assert!(result.id > 0);
    assert!(result.is_new);

    let result2 = repo.save_content(&content, Some(1), Some(1));
    assert_eq!(result2.id, result.id);
    assert!(!result2.is_new);

    let exists = repo.content_exists("tiktok", "v123");
    assert!(exists);

    let stored = repo.get_content("tiktok", "v123");
    assert!(stored.is_some());
    assert_eq!(stored.unwrap().content_id, "v123");
}

#[test]
fn test_mock_ai_analyzer() {
    let analyzer = MockAiAnalyzer::new();

    let comment = Comment::new("tiktok", "c1", "v123").with_text("Great video!");

    let suggestion = analyzer.analyze_comment(&comment);
    assert!(suggestion.reply_text.is_some());
}

#[test]
fn mock_analyzer_canned_answer_names_the_model() {
    let analyzer = MockAiAnalyzer::new();
    let s = analyzer.analyze_comment(&Comment::new("tiktok", "c7", "v").with_text("ok"));
    assert_eq!(s.model.as_deref(), Some("mock-model"));
    assert_eq!(s.comment_id, "c7");
}

#[test]
fn mock_analyzer_quotes_twenty_bytes_and_uses_set_responses() {
    let mut analyzer = MockAiAnalyzer::new();
    let long = Comment::new("tiktok", "c1", "v").with_text("abcdefghijklmnopqrstuvwxyz");
    let s = analyzer.analyze_comment(&long);
    assert_eq!(s.reply_text.as_deref(), Some("Thank you for your comment: abcdefghijklmnopqrst"));
    assert_eq!(s.reason.as_deref(), Some("Auto-generated mock response"));
    assert_eq!(s.model.as_deref(), Some("mock-model"));
    assert_eq!(s.tokens_used, Some(100));
    assert_eq!(analyzer.model_name(), "mock-model");
    assert!(analyzer.health_check());

    analyzer.set_response("c1", ReplySuggestion::new("c1").with_dm("hello"));
    analyzer.set_response("c1", ReplySuggestion::new("c1").with_dm("again"));
    let s = analyzer.analyze_comment(&long);
    assert_eq!(s.dm_text.as_deref(), Some("again"));
    assert_eq!(s.reply_text, None);

    let other = Comment::new("tiktok", "c2", "v").with_text("hi");
    let batch = analyzer.analyze_batch(&vec![long, other]);
    assert_eq!(batch.len(), 2);
    assert_eq!(batch[0].dm_text.as_deref(), Some("again"));
    assert_eq!(batch[1].reply_text.as_deref(), Some("Thank you for your comment: hi"));
}

#[test]
fn repository_upsert_updates_fields_and_keys_by_platform() {
    let mut repo = InMemoryRepository::new();
    let first = Content::new("tiktok", "v1").with_description("one");
    let r1 = repo.save_content(&first, None, None);
    assert_eq!(r1.id, 1);
    let updated = Content::new("tiktok", "v1")
        .with_description("two")
        .with_engagement(Engagement { likes: 5, comments: 6, shares: 7, views: 8 });
    let r2 = repo.save_content(&updated, Some(9), None);
    assert_eq!(r2.id, 1);
    let stored = repo.get_content_by_id(1).unwrap();
    assert_eq!(stored.description.as_deref(), Some("two"));
    assert_eq!(stored.likes, Some(5));
    assert_eq!(stored.campaign_id, Some(9));
    assert_eq!(stored.platform_id, 2);

    let insta = Content::new("instagram", "v1");
    let r3 = repo.save_content(&insta, None, None);
    assert_eq!(r3.id, 2);
    assert!(r3.is_new);
    assert!(!repo.content_exists("facebook", "v1"));
    assert!(repo.get_content_by_id(3).is_none());

    let results = repo.save_contents(&vec![Content::new("tiktok", "v2"), Content::new("tiktok", "v1")], None, None);
    assert_eq!(results.len(), 2);
    assert_eq!(results[0].id, 3);
    assert!(results[0].is_new);
    assert_eq!(results[1].id, 1);
    assert!(!results[1].is_new);

    repo.update_content_engagement(3, 1, 2, 3, 4);
    assert_eq!(repo.get_content_by_id(3).unwrap().views, Some(4));
}

#[test]
fn repository_comments_pending_and_analysis() {
    let mut repo = InMemoryRepository::new();
    let video = repo.save_content(&Content::new("tiktok", "v1"), Some(7), None).id;
    let other = repo.save_content(&Content::new("tiktok", "v2"), Some(8), None).id;
    let ids = repo.save_comments(
        &vec![
            Comment::new("tiktok", "c1", "v1").with_text("a"),
            Comment::new("tiktok", "c2", "v1").with_text("b"),
        ],
        video,
    );
    assert_eq!(ids, vec![1, 2]);
    let c3 = repo.save_comment(&Comment::new("tiktok", "c3", "v2"), other);
    assert_eq!(c3, 3);
    assert!(repo.comment_exists("tiktok", "c2"));
    assert_eq!(repo.get_comment("tiktok", "c2").unwrap().id, 2);

    let pending = repo.get_pending_comments(7, 10);
    assert_eq!(pending.iter().map(|c| c.id).collect::<Vec<_>>(), vec![1, 2]);
    assert_eq!(repo.get_pending_comments(7, 1).len(), 1);
    assert_eq!(repo.get_pending_comments(7, -1).len(), 2);

    let suggestion = ReplySuggestion::new("c1").with_reply("thanks").with_model_info("m", 12);
    let analysis_id = repo.save_analysis(1, 7, &suggestion);
    assert_eq!(analysis_id, 1);
    let analysis = repo.get_analysis(1).unwrap();
    assert_eq!(analysis.suggested_reply.as_deref(), Some("thanks"));
    assert_eq!(analysis.tokens_used, Some(12));
    assert_eq!(repo.get_comment_by_id(1).unwrap().status, CommentStatus::Completed.code());
    assert_eq!(repo.get_pending_comments(7, 10).iter().map(|c| c.id).collect::<Vec<_>>(), vec![2]);

    let again = repo.save_comment_with_analysis(&Comment::new("tiktok", "c2", "v1"), video, 7, &suggestion);
    assert_eq!(again, 2);
    let fresh = repo.save_comment_with_analysis(&Comment::new("tiktok", "c9", "v1"), video, 7, &suggestion);
    assert_eq!(fresh, 4);
    assert!(repo.get_pending_comments(7, 10).is_empty());
    assert!(repo.get_analysis(4).is_some());
    repo.update_comment_status(4, CommentStatus::Pending);
    assert_eq!(repo.get_pending_comments(7, 10).len(), 1);
}

fn campaign(id: i32, status: CampaignStatus, max: Option<i32>) -> CampaignConfig {
    CampaignConfig {
        id,
        user_id: 1,
        name: "c".to_string(),
        platform_id: 2,
        status,
        target_audience: Some("devs".to_string()),
        product_prompt: Some("tool".to_string()),
        reply_strategy: None,
        dm_strategy: None,
        reply_post_strategy: None,
        max_comments: max,
        processed_comments: 0,
    }
}

fn task(id: i64, campaign_id: i32, status: TaskStatus) -> TaskInfo {
    TaskInfo {
        id,
        campaign_id,
        platform_id: 2,
        keywords: None,
        status,
        progress: 0,
        error_message: None,
    }
}

#[test]
fn repository_campaigns_and_tasks() {
    let mut repo = InMemoryRepository::new();
    assert!(repo.should_stop_campaign(1));
    repo.add_campaign(campaign(1, CampaignStatus::Active, Some(3)));
    assert!(!repo.should_stop_campaign(1));
    assert_eq!(repo.get_analysis_context(1).unwrap().product_prompt.as_deref(), Some("tool"));
    repo.increment_processed(1, 2);
    repo.increment_processed(1, 1);
    assert_eq!(repo.get_processed_count(1), 3);
    assert!(repo.should_stop_campaign(1));
    repo.update_processed_count(1, 0);
    assert_eq!(repo.get_campaign(1).unwrap().processed_comments, 0);

    repo.add_task(task(10, 1, TaskStatus::Running));
    assert!(!repo.should_stop(10));
    assert!(repo.should_stop(11));
    let update = repo.update_task_progress(10, 5);
    assert!(update.success);
    assert_eq!(update.new_process_count, 5);
    assert!(!update.should_stop);
    assert!(!repo.update_task_progress(99, 1).success);

    let stop = repo.stop_campaign_gracefully(1);
    assert!(stop.success);
    assert!(!stop.immediate_stopped);
    assert_eq!(repo.get_campaign(1).unwrap().status, CampaignStatus::Stopping);
    assert!(repo.should_stop(10));

    repo.complete_task(10);
    let t = repo.get_task(10).unwrap();
    assert_eq!(t.status, TaskStatus::Completed);
    assert_eq!(t.progress, 100);
    let stop = repo.stop_campaign_gracefully(1);
    assert!(stop.immediate_stopped);
    assert_eq!(repo.get_campaign(1).unwrap().status, CampaignStatus::Completed);
    assert!(!repo.stop_campaign_gracefully(2).success);

    repo.add_task(task(11, 1, TaskStatus::Pending));
    repo.fail_task(11, "boom");
    let t = repo.get_task(11).unwrap();
    assert_eq!(t.status, TaskStatus::Failed);
    assert_eq!(t.error_message.as_deref(), Some("boom"));
    repo.update_task_status(11, TaskStatus::Running);
    assert_eq!(repo.get_task(11).unwrap().status, TaskStatus::Running);
    assert_eq!(TaskStatus::Running.db_label(), "processing");
}

fn aweme(id: &str) -> AwemeFields {
    AwemeFields {
        aweme_id: id.to_string(),
        username: Some("u".to_string()),
        nickname: None,
        description: "d".to_string(),
        share_url: None,
        likes: 1,
        comments: 2,
        shares: 3,
        views: 4,
        create_time: None,
    }
}

fn tiktok_comment(id: &str) -> TikTokCommentFields {
    TikTokCommentFields {
        cid: id.to_string(),
        reply_id: Some("0".to_string()),
        username: Some("u".to_string()),
        nickname: None,
        uid: None,
        text: "t".to_string(),
        likes: 0,
        reply_comment_total: None,
        create_time: None,
        language: None,
        is_reply: false,
    }
}

#[test]
fn fixture_gateway_requests_and_pages() {
    let gateway = FixtureMockAdapter::from_test_fixtures(Some("/proj"));
    assert_eq!(gateway.loader().base_dir(), "/proj/tests/fixtures/tiktok");
    assert_eq!(gateway.platform(), "tiktok");
    let gateway2 = FixtureMockAdapter::new(FixtureLoader::new("dir"));
    assert_eq!(gateway2.loader().base_dir(), "dir");

    let options = SearchOptions::new("q");
    match FixtureMockAdapter::request_for(&KeywordType::Hashtag("cats".to_string()), &options) {
        FixtureRequest::Search { query, region } => {
            assert_eq!(query, "cats");
            assert_eq!(region, "us");
        }
        other => panic!("unexpected {other:?}"),
    }
    let options = SearchOptions::new("q").with_region("gb");
    match FixtureMockAdapter::request_for(&KeywordType::Search("dogs".to_string()), &options) {
        FixtureRequest::Search { region, .. } => assert_eq!(region, "gb"),
        other => panic!("unexpected {other:?}"),
    }
    assert!(matches!(
        FixtureMockAdapter::request_for(&KeywordType::SecUserId("s".to_string()), &options),
        FixtureRequest::UserVideos { .. }
    ));
    assert!(matches!(
        FixtureMockAdapter::request_for(&KeywordType::ContentId("x".to_string()), &options),
        FixtureRequest::Nothing
    ));

    let contents = gateway.fixture_contents(vec![(aweme("a"), None), (aweme("b"), None), (aweme("c"), None)], 2);
    assert_eq!(contents.iter().map(|c| c.content_id.as_str()).collect::<Vec<_>>(), vec!["a", "b"]);
    assert_eq!(contents[0].platform, "tiktok");
    assert_eq!(contents[0].engagement.views, 4);

    let page = gateway.fixture_comments(vec![(tiktok_comment("x"), None), (tiktok_comment("y"), None)], "a", 1);
    assert_eq!(page.comments.len(), 1);
    assert!(page.has_more);
    assert_eq!(page.total, Some(2));
    assert_eq!(page.comments[0].parent_id, None);
    let page = gateway.fixture_comments(vec![(tiktok_comment("x"), None)], "a", 5);
    assert!(!page.has_more);
}
