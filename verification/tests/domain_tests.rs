use glance_mind_agent::domain::entities::{
    Comment, CommentIntent, ConcurrencyConfig, Content, Engagement, ReplySuggestion, Sentiment,
    TaskResult,
};
use glance_mind_agent::domain::errors::{AiError, DbError, GatewayError, WorkflowError};

#[test]
fn test_gateway_error_retryable() {
    assert!(GatewayError::Network("timeout".into()).is_retryable());
    assert!(GatewayError::RateLimited {
        retry_after_secs: Some(60)
    }
    .is_retryable());
    assert!(!GatewayError::AuthFailed("invalid key".into()).is_retryable());
    assert!(!GatewayError::NotFound("video".into()).is_retryable());
}

#[test]
fn test_ai_error_retryable() {
    assert!(AiError::Network("timeout".into()).is_retryable());
    assert!(AiError::RateLimited.is_retryable());
    assert!(!AiError::InvalidInput("bad prompt".into()).is_retryable());
}

#[test]
fn test_db_error_retryable() {
    assert!(DbError::Connection("closed".into()).is_retryable());
    assert!(DbError::PoolExhausted.is_retryable());
    assert!(!DbError::NotFound("record".into()).is_retryable());
}

#[test]
fn test_workflow_error_from_gateway() {
    let gateway_err = GatewayError::NotFound("video123".into());
    let workflow_err: WorkflowError = gateway_err.into();
    assert!(matches!(workflow_err, WorkflowError::Gateway(_)));
}

#[test]
fn test_task_result() {
    let result = TaskResult::success(1)
        .with_counts(10, 100, 50)
        .with_duration(5000);

    assert!(result.success);
    assert_eq!(result.contents_processed, 10);
    assert_eq!(result.comments_processed, 100);
    assert_eq!(result.analyses_generated, 50);
}

#[test]
fn test_content_builder() {
    let content = Content::new("tiktok", "123456")
        .with_author("testuser")
        .with_description("Test video")
        .with_engagement(Engagement {
            likes: 100,
            comments: 10,
            shares: 5,
            views: 1000,
        });

    assert_eq!(content.platform, "tiktok");
    assert_eq!(content.content_id, "123456");
    assert_eq!(content.author, "testuser");
    assert_eq!(content.engagement.likes, 100);
}

#[test]
fn test_comment_builder() {
    let comment = Comment::new("tiktok", "c123", "v456")
        .with_author("commenter")
        .with_text("Great video!")
        .with_likes(50)
        .as_reply_to("c100");

    assert_eq!(comment.comment_id, "c123");
    assert_eq!(comment.content_id, "v456");
    assert!(comment.is_reply);
    assert_eq!(comment.parent_id, Some("c100".to_string()));
}

#[test]
fn test_reply_suggestion_builder() {
    let suggestion = ReplySuggestion::new("c123")
        .with_reply("Thank you!")
        .with_intent(CommentIntent::Praise)
        .with_sentiment(Sentiment::Positive);

    assert_eq!(suggestion.comment_id, "c123");
    assert_eq!(suggestion.reply_text, Some("Thank you!".to_string()));
    assert_eq!(suggestion.intent, Some(CommentIntent::Praise));
}

#[test]
fn task_result_failure_records_error() {
    let result = TaskResult::failure(7, "boom");
    assert!(!result.success);
    assert_eq!(result.task_id, 7);
    assert_eq!(result.error, Some("boom".to_string()));
}

#[test]
fn gateway_error_rate_limit_is_rate_limited() {
    assert!(GatewayError::RateLimited { retry_after_secs: None }.is_rate_limited());
    assert!(!GatewayError::Network("x".into()).is_rate_limited());
}

#[test]
fn gateway_error_messages() {
    assert_eq!(
        GatewayError::NotFound("video123".into()).message(),
        "Content not found: video123"
    );
    assert_eq!(
        GatewayError::RateLimited { retry_after_secs: Some(60) }.message(),
        "Rate limited, retry after Some(60) seconds"
    );
}

#[test]
fn concurrency_config_from_env_values() {
    let c = ConcurrencyConfig::from_env(Some("8"), None, Some("oops"), Some("+4"), Some("250"));
    assert_eq!(c.max_concurrent_tasks, 8);
    assert_eq!(c.max_concurrent_videos, 5);
    assert_eq!(c.ai_concurrency, 20);
    assert_eq!(c.tikhub_concurrency, 4);
    assert_eq!(c.ai_min_interval_ms, 250);
}

#[test]
fn concurrency_config_from_env_rejects_negative_and_blank() {
    let c = ConcurrencyConfig::from_env(Some("-1"), Some(""), Some(" 3"), None, Some("18446744073709551616"));
    assert_eq!(c, ConcurrencyConfig::default());
}
