use glance_mind_agent::adapters::instagram::{InstagramAdapter, InstagramCommentFields, InstagramPostFields};
use glance_mind_agent::adapters::reddit::{RedditAdapter, RedditCommentFields, RedditPostFields};
use glance_mind_agent::adapters::tikhub::{AwemeFields, TikHubAdapter, TikTokCommentFields};

fn instagram_post(shortcode: Option<&str>) -> InstagramPostFields {
    InstagramPostFields {
        media_id: Some("12345".to_string()),
        shortcode: shortcode.map(|s| s.to_string()),
        username: Some("testuser".to_string()),
        full_name: Some("Test User".to_string()),
        caption: "Test caption".to_string(),
        likes: 100,
        comments: 10,
        views: 1000,
        created_at: Some(1234567890),
    }
}

#[test]
fn instagram_test_convert_content() {
    let content = InstagramAdapter::convert_content(instagram_post(Some("ABC123")), None);
    assert_eq!(content.platform, "instagram");
    assert_eq!(content.content_id, "ABC123");
    assert_eq!(content.author, "testuser");
    assert_eq!(content.engagement.likes, 100);
    assert_eq!(content.engagement.views, 1000);
}

#[test]
fn instagram_content_without_shortcode_uses_media_id() {
    let content = InstagramAdapter::convert_content(instagram_post(None), None);
    assert_eq!(content.content_id, "12345");
    assert_eq!(content.url, None);
    let content = InstagramAdapter::convert_content(instagram_post(Some("XY")), None);
    assert_eq!(content.url.as_deref(), Some("https://www.instagram.com/p/XY/"));
    assert_eq!(content.engagement.shares, 0);
    assert_eq!(content.author_name.as_deref(), Some("Test User"));
    assert_eq!(content.created_at, Some(1234567890));
}

#[test]
fn instagram_test_convert_comment() {
    let comment = InstagramCommentFields {
        id: Some("c123".to_string()),
        parent_comment_id: None,
        username: Some("commenter".to_string()),
        nickname: Some("Commenter Name".to_string()),
        user_id: Some("u456".to_string()),
        text: "Great post!".to_string(),
        likes: 50,
        reply_count: 5,
        created_at: Some(1234567890),
        is_reply: false,
    };

    let domain_comment = InstagramAdapter::convert_comment(comment, "post123", None);
    assert_eq!(domain_comment.platform, "instagram");
    assert_eq!(domain_comment.comment_id, "c123");
    assert_eq!(domain_comment.content_id, "post123");
    assert_eq!(domain_comment.text, "Great post!");
    assert_eq!(domain_comment.author, "commenter");
    assert_eq!(domain_comment.likes, 50);
    assert!(!domain_comment.is_reply);
}

#[test]
fn reddit_test_convert_comment() {
    let comment = RedditCommentFields {
        comment_id: "xyz789".to_string(),
        parent_id: None,
        author: "commenter".to_string(),
        body: "Great post!".to_string(),
        score: 50,
        created_utc: 1234567890,
        is_reply: false,
    };

    let domain_comment = RedditAdapter::convert_comment(comment, "abc123", None);
    assert_eq!(domain_comment.platform, "reddit");
    assert_eq!(domain_comment.comment_id, "xyz789");
    assert_eq!(domain_comment.content_id, "abc123");
    assert_eq!(domain_comment.text, "Great post!");
    assert_eq!(domain_comment.author, "commenter");
    assert_eq!(domain_comment.likes, 50);
    assert!(!domain_comment.is_reply);
}

#[test]
fn reddit_post_content_text_and_url() {
    let post = RedditPostFields {
        post_id: Some("abc".to_string()),
        author: Some("poster".to_string()),
        title: Some("Title".to_string()),
        body: None,
        permalink: Some("/r/rust/comments/abc/title/".to_string()),
        url: Some("https://example.com".to_string()),
        score: 42,
        comments: 7,
        created_at: Some(1_700_000_000),
    };
    let content = RedditAdapter::convert_content(post.clone(), None);
    assert_eq!(content.platform, "reddit");
    assert_eq!(content.content_id, "abc");
    assert_eq!(content.description, "Title\n\n");
    assert_eq!(content.url.as_deref(), Some("https://www.reddit.com/r/rust/comments/abc/title/"));
    assert_eq!(content.engagement.likes, 42);
    assert_eq!(content.engagement.comments, 7);

    let linked = RedditPostFields { permalink: None, ..post };
    let content = RedditAdapter::convert_content(linked, None);
    assert_eq!(content.url.as_deref(), Some("https://example.com"));
}

#[test]
fn tikhub_test_convert_content() {
    let aweme = AwemeFields {
        aweme_id: "123456".to_string(),
        username: Some("testuser".to_string()),
        nickname: Some("Test User".to_string()),
        description: "Test video".to_string(),
        share_url: Some("https://tiktok.com/video/123".to_string()),
        likes: 100,
        comments: 10,
        shares: 5,
        views: 1000,
        create_time: Some(1234567890),
    };

    let content = TikHubAdapter::convert_content(aweme, None);
    assert_eq!(content.content_id, "123456");
    assert_eq!(content.author, "testuser");
    assert_eq!(content.engagement.likes, 100);
    assert_eq!(content.engagement.views, 1000);
}

fn tiktok_comment(reply_id: Option<&str>) -> TikTokCommentFields {
    TikTokCommentFields {
        cid: "c123".to_string(),
        reply_id: reply_id.map(|s| s.to_string()),
        username: Some("commenter".to_string()),
        nickname: Some("Commenter Name".to_string()),
        uid: Some("u456".to_string()),
        text: "Great video!".to_string(),
        likes: 50,
        reply_comment_total: Some(5),
        create_time: Some(1234567890),
        language: Some("en".to_string()),
        is_reply: false,
    }
}

#[test]
fn tikhub_test_convert_comment() {
    let domain_comment = TikHubAdapter::convert_comment(tiktok_comment(Some("0")), "v123", None);
    assert_eq!(domain_comment.comment_id, "c123");
    assert_eq!(domain_comment.text, "Great video!");
    assert_eq!(domain_comment.author, "commenter");
    assert_eq!(domain_comment.likes, 50);
    assert!(!domain_comment.is_reply);
}

#[test]
fn tiktok_reply_parent_skips_zero() {
    assert_eq!(TikHubAdapter::convert_comment(tiktok_comment(Some("0")), "v", None).parent_id, None);
    assert_eq!(
        TikHubAdapter::convert_comment(tiktok_comment(Some("c9")), "v", None).parent_id.as_deref(),
        Some("c9")
    );
    let c = TikHubAdapter::convert_comment(tiktok_comment(None), "v", None);
    assert_eq!(c.parent_id, None);
    assert_eq!(c.reply_count, 5);
    assert_eq!(c.language.as_deref(), Some("en"));
}
