use glance_mind_agent::adapters::postgres::{
    choose_template, comment_table_for, content_table_for, facebook_post_record, i64_to_i32,
    lookup_table_for, pick_template, plain_comment_table_for, stored_analysis, stored_facebook_post,
    stored_tweet, total_template_weight, twitter_comment_record, twitter_tweet_record,
    AnalysisColumns, CampaignTemplate, CommentTable, ContentTable, FacebookPostRaw, InstagramPostRaw,
    RedditPostRaw, instagram_post_record, reddit_post_record, first_stored_analysis,
};
use glance_mind_agent::adapters::twitter::{TweetFields, TweetUser};
use glance_mind_agent::domain::entities::{Comment, Content, Engagement, ReplySuggestion};

fn tweet(id: &str) -> TweetFields {
    TweetFields {
        tweet_id: Some(id.to_string()),
        tweet_type: None,
        screen_name: Some("handle".to_string()),
        author_name: Some("Display".to_string()),
        user_id: Some("u-1".to_string()),
        text: "text".to_string(),
        like_count: 11,
        reply_count: 2,
        retweet_count: 3,
        quote_count: 1,
        bookmark_count: 4,
        view_count: 5_000_000_000,
        created_at: Some("Fri Jan 09 22:17:51 +0000 2026".to_string()),
        created_at_timestamp: Some(1_767_997_071),
        lang: Some("en".to_string()),
        conversation_id: Some("conv".to_string()),
        is_reply: false,
        in_reply_to_status_id: None,
        in_reply_to_user_id: None,
        media_urls: vec!["https://img/1.jpg".to_string()],
        has_media: true,
        user_info: None,
        author: Some(TweetUser {
            description: Some("bio".to_string()),
            followers_count: Some(55),
            avatar: None,
            verified: None,
            blue_verified: Some(true),
        }),
    }
}

fn template(id: i32, weight: i32) -> CampaignTemplate {
    CampaignTemplate {
        id,
        campaign_id: 9,
        weight,
        reply_prompt: Some(format!("reply {id}")),
        dm_prompt: None,
        reply_post_prompt: None,
    }
}

#[test]
fn counts_saturate_at_i32_bounds() {
    assert_eq!(i64_to_i32(42), 42);
    assert_eq!(i64_to_i32(-7), -7);
    assert_eq!(i64_to_i32(5_000_000_000), i32::MAX);
    assert_eq!(i64_to_i32(-5_000_000_000), i32::MIN);
}

#[test]
fn contents_and_comments_route_to_platform_tables() {
    assert_eq!(content_table_for("Facebook"), ContentTable::FacebookPosts);
    assert_eq!(content_table_for("instagram"), ContentTable::InstagramPosts);
    assert_eq!(content_table_for("REDDIT"), ContentTable::RedditPosts);
    assert_eq!(content_table_for("twitter"), ContentTable::TwitterTweets);
    assert_eq!(content_table_for("tiktok"), ContentTable::Videos);
    assert_eq!(content_table_for("youtube"), ContentTable::Videos);
    assert_eq!(lookup_table_for("instagram"), ContentTable::Videos);
    assert_eq!(lookup_table_for("Twitter"), ContentTable::TwitterTweets);
    assert_eq!(comment_table_for("Reddit"), CommentTable::RedditComments);
    assert_eq!(comment_table_for("tiktok"), CommentTable::Comments);
    assert_eq!(plain_comment_table_for("FACEBOOK"), CommentTable::FacebookComments);
    assert_eq!(plain_comment_table_for("twitter"), CommentTable::TwitterComments);
    assert_eq!(plain_comment_table_for("reddit"), CommentTable::Comments);
}

#[test]
fn tweet_record_prefers_parsed_tweet() {
    let content = Content::new("twitter", "t-1")
        .with_author("fallback")
        .with_description("stored text")
        .with_created_at(100);
    let r = twitter_tweet_record(&content, Some(3), None, Some(tweet("t-1")));
    assert_eq!(r.task_id, 0);
    assert_eq!(r.campaign_id, Some(3));
    assert_eq!(r.twitter_tweet_id, "t-1");
    assert_eq!(r.full_text, "stored text");
    assert_eq!(r.screen_name.as_deref(), Some("handle"));
    assert_eq!(r.user_name.as_deref(), Some("Display"));
    assert_eq!(r.user_description.as_deref(), Some("bio"));
    assert_eq!(r.user_followers_count, Some(55));
    assert_eq!(r.user_verified, Some(true));
    assert_eq!(r.media_urls, Some(vec!["https://img/1.jpg".to_string()]));
    assert_eq!(r.favorite_count, Some(11));
    assert_eq!(r.view_count, Some(i32::MAX));
    assert_eq!(r.quote_count, Some(1));
    assert_eq!(r.created_at_ts, Some(100));
    assert_eq!(r.created_at_str.as_deref(), Some("Fri Jan 09 22:17:51 +0000 2026"));
}

#[test]
fn tweet_record_falls_back_to_content() {
    let content = Content::new("twitter", "t-2")
        .with_engagement(Engagement { likes: 7, comments: 8, shares: 9, views: 10 });
    let r = twitter_tweet_record(&content, None, Some(12), None);
    assert_eq!(r.task_id, 12);
    assert_eq!(r.screen_name, None);
    assert_eq!(r.favorite_count, Some(7));
    assert_eq!(r.reply_count, Some(8));
    assert_eq!(r.retweet_count, Some(9));
    assert_eq!(r.view_count, Some(10));
    assert_eq!(r.quote_count, None);
    assert_eq!(r.media_urls, None);
    assert_eq!(r.is_reply, None);

    let content = content.with_author("someone");
    let mut parsed = tweet("t-2");
    parsed.screen_name = None;
    parsed.media_urls = Vec::new();
    let r = twitter_tweet_record(&content, None, None, Some(parsed));
    assert_eq!(r.screen_name.as_deref(), Some("someone"));
    assert_eq!(r.media_urls, None);
    assert_eq!(r.created_at_ts, Some(1_767_997_071));
}

#[test]
fn reply_record_carries_suggestion_and_fallbacks() {
    let mut comment = Comment::new("twitter", "c-1", "t-1");
    comment.author = "replier".to_string();
    comment.likes = 4;
    comment.reply_count = 6;
    comment.parent_id = Some("t-1".to_string());
    comment.is_reply = true;
    comment.text = "nice".to_string();
    let suggestion = ReplySuggestion::new("c-1").with_reply("thanks").with_reason("friendly");
    let r = twitter_comment_record(&comment, 77, 5, &suggestion, None);
    assert_eq!(r.tweet_db_id, 77);
    assert_eq!(r.campaign_id, 5);
    assert_eq!(r.conversation_id.as_deref(), Some("t-1"));
    assert_eq!(r.comment_screen_name.as_deref(), Some("replier"));
    assert_eq!(r.favorite_count, Some(4));
    assert_eq!(r.reply_count, Some(6));
    assert_eq!(r.retweet_count, None);
    assert_eq!(r.in_reply_to_status_id.as_deref(), Some("t-1"));
    assert_eq!(r.is_reply, Some(true));
    assert_eq!(r.suggested_reply.as_deref(), Some("thanks"));
    assert_eq!(r.reason.as_deref(), Some("friendly"));
    assert_eq!(r.suggested_dm, None);
    assert_eq!(r.comment_text, "nice");

    let r = twitter_comment_record(&comment, 77, 5, &suggestion, Some(tweet("c-1")));
    assert_eq!(r.conversation_id.as_deref(), Some("conv"));
    assert_eq!(r.comment_user_followers, Some(55));
    assert_eq!(r.retweet_count, Some(3));
    assert_eq!(r.is_reply, Some(false));
}

fn raw_post() -> FacebookPostRaw {
    FacebookPostRaw {
        post_type: Some("post".to_string()),
        message_rich: None,
        timestamp: None,
        reactions_like: Some(3),
        reactions_love: None,
        reactions_haha: None,
        reactions_wow: None,
        reactions_sad: None,
        reactions_angry: None,
        reactions_care: Some((1i64 << 32) + 2),
        author_id: None,
        author_name: Some("Page".to_string()),
        author_url: None,
        author_profile_picture_url: None,
        author_title: None,
        has_image: true,
        image_uri: Some("https://img".to_string()),
        image_width: Some(640),
        image_height: Some(480),
        image_id: None,
        has_video: false,
        video_thumbnail: None,
        external_url: None,
        attached_post_url: None,
        comments_id: None,
        shares_id: None,
    }
}

#[test]
fn facebook_record_merges_raw_and_content() {
    let content = Content::new("facebook", "fb-1")
        .with_author("author-id")
        .with_description("hello")
        .with_url("https://fb/1")
        .with_created_at(55)
        .with_engagement(Engagement { likes: 10, comments: 2, shares: 1, views: 0 });
    let r = facebook_post_record(&content, Some(1), Some(2), raw_post());
    assert_eq!(r.task_id, 2);
    assert_eq!(r.facebook_post_id, "fb-1");
    assert_eq!(r.message.as_deref(), Some("hello"));
    assert_eq!(r.message_rich.as_deref(), Some("hello"));
    assert_eq!(r.timestamp, Some(55));
    assert_eq!(r.reactions_count, Some(10));
    assert_eq!(r.reactions_like, Some(3));
    assert_eq!(r.reactions_care, Some(2));
    assert_eq!(r.author_id.as_deref(), Some("author-id"));
    assert_eq!(r.author_name.as_deref(), Some("Page"));
    assert_eq!(r.has_image, Some(true));
    assert_eq!(r.has_video, Some(false));
    assert_eq!(r.image_width, Some(640));

    let stored = stored_facebook_post(31, &r, serde_json::Value::Null);
    assert_eq!(stored.id, 31);
    assert_eq!(stored.platform_id, 3);
    assert_eq!(stored.description.as_deref(), Some("hello"));
    assert_eq!(stored.likes, Some(10));
    assert_eq!(stored.views, None);
    assert_eq!(stored.content_url.as_deref(), Some("https://fb/1"));
}

#[test]
fn stored_tweet_url_and_counts() {
    let content = Content::new("twitter", "99").with_description("hi");
    let record = twitter_tweet_record(&content, Some(4), None, Some(tweet("99")));
    let stored = stored_tweet(8, &record, serde_json::Value::Null);
    assert_eq!(stored.platform_id, 5);
    assert_eq!(stored.content_url.as_deref(), Some("https://twitter.com/handle/status/99"));
    assert_eq!(stored.likes, Some(11));
    assert_eq!(stored.views, Some(i32::MAX as i64));
    assert_eq!(stored.campaign_id, Some(4));

    let bare = twitter_tweet_record(&content, None, None, None);
    let stored = stored_tweet(9, &bare, serde_json::Value::Null);
    assert_eq!(stored.content_url.as_deref(), Some("https://twitter.com/i/web/status/99"));
    assert_eq!(stored.author_unique_id, None);
}

#[test]
fn analysis_present_only_with_a_suggestion() {
    let row = AnalysisColumns {
        id: 5,
        campaign_id: None,
        suggested_reply: None,
        suggested_dm: None,
        suggested_reply_post: None,
        reason: Some("why".to_string()),
    };
    assert!(stored_analysis(row.clone()).is_none());
    let with_dm = AnalysisColumns { suggested_dm: Some("dm".to_string()), ..row };
    let a = stored_analysis(with_dm).unwrap();
    assert_eq!(a.id, 5);
    assert_eq!(a.comment_id, 5);
    assert_eq!(a.campaign_id, 0);
    assert_eq!(a.suggested_dm.as_deref(), Some("dm"));
    assert_eq!(a.reason.as_deref(), Some("why"));
    assert_eq!(a.tokens_used, None);
}

#[test]
fn weighted_template_slices() {
    let templates = vec![template(1, 3), template(2, 0), template(3, -4), template(4, 2)];
    assert_eq!(total_template_weight(&templates), 7);
    let picks: Vec<usize> = (0..7).map(|p| pick_template(&templates, p)).collect();
    assert_eq!(picks, vec![0, 0, 0, 1, 2, 3, 3]);
}

#[test]
fn choose_template_draws_an_existing_template() {
    assert_eq!(choose_template(&Vec::new()), None);
    let templates = vec![template(1, 1)];
    assert_eq!(choose_template(&templates), Some(0));
    let templates = vec![template(1, 5), template(2, 5)];
    for _ in 0..20 {
        let i = choose_template(&templates).unwrap();
        assert!(i < 2);
    }
}

#[test]
fn instagram_record_prefers_pk_and_defaults() {
    let content = Content::new("instagram", "ABC123")
        .with_author("owner")
        .with_description("caption")
        .with_engagement(Engagement { likes: 3, comments: 4, shares: 0, views: (1i64 << 32) + 9 });
    let raw = InstagramPostRaw {
        media_type: None,
        product_type: None,
        pk: None,
        id: Some("555".to_string()),
        user_pk: Some("77".to_string()),
        user_id: Some("78".to_string()),
        thumbnail_url: None,
        first_candidate_url: Some("https://img/c0".to_string()),
    };
    let r = instagram_post_record(&content, None, Some(3), raw);
    assert_eq!(r.task_id, 3);
    assert_eq!(r.code, "ABC123");
    assert_eq!(r.instagram_id.as_deref(), Some("555"));
    assert_eq!(r.media_type, 1);
    assert_eq!(r.product_type, "feed");
    assert_eq!(r.owner_id.as_deref(), Some("77"));
    assert_eq!(r.thumbnail_url.as_deref(), Some("https://img/c0"));
    assert_eq!(r.owner_username, "owner");
    assert_eq!(r.play_count, 9);
}

#[test]
fn reddit_record_defaults_from_content() {
    let content = Content::new("reddit", "t3_x")
        .with_author("poster")
        .with_description("body")
        .with_engagement(Engagement { likes: 0, comments: 12, shares: 0, views: 0 });
    let raw = RedditPostRaw { subreddit: Some("rust".to_string()), title: None, score: Some(40), num_comments: None, permalink: None };
    let r = reddit_post_record(&content, Some(2), None, raw);
    assert_eq!(r.task_id, 0);
    assert_eq!(r.subreddit, "rust");
    assert_eq!(r.title, "");
    assert_eq!(r.score, 40);
    assert_eq!(r.num_comments, 12);
    assert_eq!(r.selftext, "body");
    assert_eq!(r.author, "poster");
}

fn analysis_row(id: i32, reply: Option<&str>) -> AnalysisColumns {
    AnalysisColumns {
        id,
        campaign_id: Some(4),
        suggested_reply: reply.map(|r| r.to_string()),
        suggested_dm: None,
        suggested_reply_post: None,
        reason: None,
    }
}

#[test]
fn analysis_lookup_tries_tables_in_order() {
    let a = first_stored_analysis(Some(analysis_row(1, None)), Some(analysis_row(2, Some("fb"))), Some(analysis_row(3, Some("tw"))));
    assert_eq!(a.unwrap().id, 2);
    let a = first_stored_analysis(Some(analysis_row(1, Some("c"))), Some(analysis_row(2, Some("fb"))), None);
    assert_eq!(a.unwrap().suggested_reply.as_deref(), Some("c"));
    let a = first_stored_analysis(None, None, Some(analysis_row(3, Some("tw"))));
    assert_eq!(a.unwrap().campaign_id, 4);
    assert!(first_stored_analysis(None, Some(analysis_row(2, None)), None).is_none());
}
