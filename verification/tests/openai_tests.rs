use glance_mind_agent::adapters::openai::{
    extract_json_text, parse_intent, parse_sentiment, AiRetryConfig, AnalysisContext,
    OpenAiAdapter, RetryStep, SuggestionItem,
};
use glance_mind_agent::domain::entities::{Comment, CommentIntent, Content, Sentiment};
use glance_mind_agent::domain::errors::AiError;

fn items_from_json(text: &str) -> Vec<SuggestionItem> {
    let value: serde_json::Value = serde_json::from_str(text).unwrap();
    let text_of = |v: &serde_json::Value, key: &str| v.get(key).and_then(|x| x.as_str()).map(|s| s.to_string());
    value["suggestions"]
        .as_array()
        .unwrap()
        .iter()
        .map(|s| SuggestionItem {
            comment_id: text_of(s, "comment_id").unwrap(),
            reason: text_of(s, "reason"),
            suggested_reply: text_of(s, "suggested_reply"),
            suggested_dm: text_of(s, "suggested_dm"),
            suggested_reply_post: text_of(s, "suggested_reply_post"),
        })
        .collect()
}

#[test]
fn test_parse_intent() {
    assert_eq!(parse_intent("question"), Some(CommentIntent::Question));
    assert_eq!(parse_intent("PRAISE"), Some(CommentIntent::Praise));
    assert_eq!(
        parse_intent("purchase_intent"),
        Some(CommentIntent::PurchaseIntent)
    );
    assert_eq!(parse_intent("xyz"), Some(CommentIntent::Unknown));
}

#[test]
fn test_parse_sentiment() {
    assert_eq!(parse_sentiment("positive"), Some(Sentiment::Positive));
    assert_eq!(parse_sentiment("NEGATIVE"), Some(Sentiment::Negative));
    assert_eq!(parse_sentiment("neutral"), Some(Sentiment::Neutral));
    assert_eq!(parse_sentiment("xyz"), None);
}

#[test]
fn test_build_system_prompt() {
    let adapter = OpenAiAdapter::new("test-key", None, None);

    let context = AnalysisContext::new()
        .with_product_prompt("Fitness app")
        .with_target_audience("Young adults")
        .with_reply_strategy("Be friendly")
        .with_dm_strategy("Send personalized DM");

    let prompt = adapter.build_system_prompt(&context);

    assert!(prompt.contains("senior social media growth"));
    assert!(prompt.contains("Target Audience:"));
    assert!(prompt.contains("Young adults"));
    assert!(prompt.contains("Product Prompt:"));
    assert!(prompt.contains("Fitness app"));
    assert!(prompt.contains("DM Strategy:"));
    assert!(prompt.contains("Reply Strategy:"));
    assert!(prompt.contains("suggestions"));
    assert!(prompt.contains("suggested_reply"));
    assert!(prompt.contains("suggested_dm"));
    assert!(prompt.contains("suggested_reply_post"));
}

#[test]
fn system_prompt_defaults_and_escaped_braces() {
    let adapter = OpenAiAdapter::new("k", None, None);
    let prompt = adapter.build_system_prompt(&AnalysisContext::new());
    assert!(prompt.starts_with("# Role\n"));
    assert!(prompt.contains("- **Target Audience:** General audience\n"));
    assert!(prompt.contains("Strategy: Create engaging comment.\n"));
    assert!(prompt.contains("NO placeholders like {{user_name}}!"));
    assert!(prompt.contains("If no suitable comments, return: {\"suggestions\": []}"));
    assert!(prompt.ends_with("# Input Data\n"));
}

#[test]
fn test_build_user_prompt() {
    let adapter = OpenAiAdapter::new("test-key", None, None);

    let content = Content::new("tiktok", "v123")
        .with_author("testuser")
        .with_description("Test video about fitness");

    let comments = vec![
        Comment::new("tiktok", "c1", "v123")
            .with_author("user1")
            .with_author_name("John Doe")
            .with_text("Great video!"),
        Comment::new("tiktok", "c2", "v123")
            .with_author("user2")
            .with_text("How much does it cost?"),
    ];

    let prompt = adapter.build_user_prompt(&content, &comments, None);

    assert!(prompt.contains("Data:"));
    assert!(prompt.contains("Video Description:"));
    assert!(prompt.contains("Author: testuser"));
    assert!(prompt.contains("Comments:"));
    assert!(prompt.contains("ID: c1"));
    assert!(prompt.contains("User: John Doe"));
    assert!(prompt.contains("Content: Great video!"));
    assert!(prompt.contains("ID: c2"));
    assert!(prompt.contains("User: user2"));
}

#[test]
fn user_prompt_exact_text() {
    let adapter = OpenAiAdapter::new("k", None, None);
    let content = Content::new("tiktok", "v1").with_author("a").with_description("d");
    let comments = vec![Comment::new("tiktok", "c1", "v1").with_author("u").with_text("hi")];
    let prompt = adapter.build_user_prompt(&content, &comments, None);
    assert_eq!(
        prompt,
        "Data:\nVideo Description: d\nAuthor: a\n\nComments:\n- ID: c1, User: u, Content: hi\n"
    );
}

#[test]
fn test_build_user_prompt_with_batch_info() {
    let adapter = OpenAiAdapter::new("test-key", None, None);

    let content = Content::new("tiktok", "v123")
        .with_author("testuser")
        .with_description("Test video");

    let comments = vec![Comment::new("tiktok", "c1", "v123")
        .with_author("user1")
        .with_text("Comment")];

    let prompt = adapter.build_user_prompt(&content, &comments, Some("Batch 1/3"));

    assert!(prompt.contains("Batch Info: Batch 1/3"));
}

#[test]
fn test_truncate_long_description() {
    let adapter = OpenAiAdapter::new("test-key", None, None);

    let long_desc = "a".repeat(600);
    let content = Content::new("tiktok", "v123")
        .with_author("user")
        .with_description(&long_desc);

    let prompt = adapter.build_user_prompt(&content, &[], None);

    assert!(prompt.contains(&"a".repeat(500)));
    assert!(prompt.contains("..."));
    assert!(!prompt.contains(&"a".repeat(501)));
}

#[test]
fn truncation_keeps_multibyte_characters_whole() {
    let adapter = OpenAiAdapter::new("k", None, None);
    let comment_text = "é".repeat(200);
    let comments = vec![Comment::new("tiktok", "c1", "v1").with_author("u").with_text(&comment_text)];
    let content = Content::new("tiktok", "v1");
    let prompt = adapter.build_user_prompt(&content, &comments, None);
    let expected = format!("Content: {}...\n", "é".repeat(150));
    assert!(prompt.contains(&expected));
}

#[test]
fn batch_limit_notes_omitted_comments() {
    let adapter = OpenAiAdapter::new("k", None, None);
    let content = Content::new("tiktok", "v1");
    let comments: Vec<Comment> = (0..152)
        .map(|i| Comment::new("tiktok", &format!("c{i}"), "v1").with_author("u").with_text("t"))
        .collect();
    let prompt = adapter.build_user_prompt(&content, &comments, None);
    assert!(prompt.contains("- ID: c149,"));
    assert!(!prompt.contains("- ID: c150,"));
    assert!(prompt.ends_with("\n... (2 more comments omitted due to batch limit)\n"));
}

#[test]
fn size_limit_notes_omitted_comments() {
    let adapter = OpenAiAdapter::new("k", None, None);
    let content = Content::new("tiktok", "v1");
    let huge = "x".repeat(60000);
    let comments = vec![
        Comment::new("tiktok", "c0", "v1").with_author(&huge).with_text("t"),
        Comment::new("tiktok", "c1", "v1").with_author("u").with_text("t"),
    ];
    let prompt = adapter.build_user_prompt(&content, &comments, None);
    assert!(prompt.ends_with("\n... (2 more comments omitted due to size limit)\n"));
}

#[test]
fn test_parse_response() {
    let adapter = OpenAiAdapter::new("test-key", None, None);

    let response = r#"{
        "suggestions": [
            {
                "comment_id": "123",
                "reason": "High potential lead",
                "suggested_reply": "Check your DMs!",
                "suggested_dm": "Hey John, I have something for you!",
                "suggested_reply_post": null
            },
            {
                "comment_id": "456",
                "reason": "Viral potential",
                "suggested_reply": "Great point!",
                "suggested_dm": "Hi Sarah!",
                "suggested_reply_post": "This is so relatable!"
            }
        ]
    }"#;

    let json = extract_json_text(response);
    let suggestions = adapter.suggestions_from_items(items_from_json(&json));

    assert_eq!(suggestions.len(), 2);

    assert_eq!(suggestions[0].comment_id, "123");
    assert_eq!(
        suggestions[0].reply_text,
        Some("Check your DMs!".to_string())
    );
    assert_eq!(
        suggestions[0].dm_text,
        Some("Hey John, I have something for you!".to_string())
    );
    assert_eq!(suggestions[0].post_reply_text, None);

    assert_eq!(suggestions[1].comment_id, "456");
    assert_eq!(
        suggestions[1].post_reply_text,
        Some("This is so relatable!".to_string())
    );
    assert_eq!(suggestions[1].model, Some("deepseek-ai/DeepSeek-V3".to_string()));
}

#[test]
fn test_parse_response_empty() {
    let adapter = OpenAiAdapter::new("test-key", None, None);

    let response = r#"{"suggestions": []}"#;
    let json = extract_json_text(response);
    let suggestions = adapter.suggestions_from_items(items_from_json(&json));

    assert!(suggestions.is_empty());
}

#[test]
fn json_text_is_cut_out_of_prose() {
    assert_eq!(extract_json_text("Sure! {\"a\": {\"b\": 1}} Done."), "{\"a\": {\"b\": 1}}");
    assert_eq!(extract_json_text("no json here"), "no json here");
    assert_eq!(extract_json_text("}{"), "");
}

#[test]
fn retryable_errors() {
    assert!(OpenAiAdapter::is_retryable_error(&AiError::RateLimited));
    assert!(OpenAiAdapter::is_retryable_error(&AiError::Network("reset".into())));
    assert!(OpenAiAdapter::is_retryable_error(&AiError::ServiceError("API error 503 Service Unavailable: x".into())));
    assert!(OpenAiAdapter::is_retryable_error(&AiError::ServiceError("API error 403 Forbidden: RPM limit".into())));
    assert!(OpenAiAdapter::is_retryable_error(&AiError::ServiceError("temporarily overloaded".into())));
    assert!(!OpenAiAdapter::is_retryable_error(&AiError::ServiceError("API error 401 Unauthorized".into())));
    assert!(!OpenAiAdapter::is_retryable_error(&AiError::ParseError("bad".into())));
}

#[test]
fn retry_delay_doubles_and_caps() {
    let adapter = OpenAiAdapter::new("k", None, None);
    assert_eq!(adapter.calculate_retry_delay(0), 1000);
    assert_eq!(adapter.calculate_retry_delay(1), 2000);
    assert_eq!(adapter.calculate_retry_delay(4), 16000);
    assert_eq!(adapter.calculate_retry_delay(5), 30000);
}

#[test]
fn retry_steps() {
    let adapter = OpenAiAdapter::new("k", None, None);
    assert_eq!(
        adapter.next_retry_step(0, &AiError::RateLimited),
        RetryStep::Retry { delay_ms: 1000 }
    );
    assert_eq!(adapter.next_retry_step(3, &AiError::RateLimited), RetryStep::GiveUp);
    assert_eq!(
        adapter.next_retry_step(0, &AiError::InvalidInput("x".into())),
        RetryStep::GiveUp
    );
}

#[test]
fn adapter_settings() {
    let config = AiRetryConfig::default();
    assert_eq!(config.max_retries, 3);
    assert_eq!(config.base_delay_ms, 1000);
    assert_eq!(config.max_delay_ms, 30000);
    let adapter = OpenAiAdapter::new("key", Some("http://h/v1".to_string()), None).with_model("m");
    assert_eq!(adapter.chat_url(), "http://h/v1/chat/completions");
    assert_eq!(adapter.authorization(), "Bearer key");
    assert_eq!(adapter.model, "m");
}

#[test]
fn adapter_from_environment_values() {
    let err = OpenAiAdapter::from_env_values(None, None, None, None, None).unwrap_err();
    assert!(matches!(err, AiError::ServiceError(m) if m == "AGENT_API_KEY or OPENAI_API_KEY not set"));
    let a = OpenAiAdapter::from_env_values(
        None,
        Some("ok".to_string()),
        None,
        Some("http://x".to_string()),
        Some("gpt".to_string()),
    )
    .unwrap();
    assert_eq!(a.api_key, "ok");
    assert_eq!(a.base_url, "http://x");
    assert_eq!(a.model, "gpt");
    let b = OpenAiAdapter::from_env_values(Some("a".to_string()), Some("b".to_string()), None, None, None).unwrap();
    assert_eq!(b.api_key, "a");
    assert_eq!(b.base_url, "https://api.siliconflow.cn/v1");
}

#[test]
fn status_error_maps_rate_limit_and_service_errors() {
    assert!(matches!(OpenAiAdapter::status_error(429, "429 Too Many Requests", "slow down"), AiError::RateLimited));
    let e = OpenAiAdapter::status_error(503, "503 Service Unavailable", "busy");
    match &e {
        AiError::ServiceError(m) => assert_eq!(m, "API error 503 Service Unavailable: busy"),
        other => panic!("unexpected {other:?}"),
    }
    assert!(OpenAiAdapter::is_retryable_error(&e));
    let e = OpenAiAdapter::status_error(400, "400 Bad Request", "bad");
    assert!(!OpenAiAdapter::is_retryable_error(&e));
}

#[test]
fn first_choice_or_empty_response_error() {
    assert_eq!(OpenAiAdapter::first_choice(vec!["a".to_string(), "b".to_string()]).unwrap(), "a");
    match OpenAiAdapter::first_choice(Vec::new()) {
        Err(AiError::ServiceError(m)) => assert_eq!(m, "Empty response from API"),
        other => panic!("unexpected {other:?}"),
    }
}
