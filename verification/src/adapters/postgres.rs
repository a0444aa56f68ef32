//! Storage rules of the PostgreSQL repository: which table holds a
//! platform's contents and comments, how tweets, replies and Facebook,
//! Instagram and Reddit posts become rows, how stored rows read back as
//! contents, when a stored comment carries an analysis, and which of a
//! campaign's reply templates is drawn.  The queries themselves run outside
//! the library; they bind the rows built here.

use vstd::prelude::*;
use crate::adapters::twitter::{TweetFields, TweetUser};
use crate::domain::entities::{Comment, Content, ReplySuggestion};
use crate::ports::{StoredAnalysis, StoredContent};
use crate::text::{
    eq_ignore_ascii_case, is_ascii_text, lower_ascii, push_str, str_eq, to_lowercase, to_owned_string, unicode_lowercase,
};

verus! {

// ------------------------------------------------------------------
// Narrowing counts
// ------------------------------------------------------------------

/// `v` clamped to the range of `i32`.
pub open spec fn clamp_i32(v: int) -> i32 {
    if v < i32::MIN {
        i32::MIN
    } else if v > i32::MAX {
        i32::MAX
    } else {
        v as i32
    }
}

/// A 64-bit count narrowed to a 32-bit column, saturating at the bounds.
pub fn i64_to_i32(value: i64) -> (r: i32)
    ensures
        r == clamp_i32(value as int),
{
    if value < -2147483648i64 {
        -2147483648i32
    } else if value > 2147483647i64 {
        2147483647i32
    } else {
        value as i32
    }
}

// ------------------------------------------------------------------
// Tables
// ------------------------------------------------------------------

/// The tables that hold contents.
#[derive(Debug, Clone, Copy, PartialEq, Eq)]
pub enum ContentTable {
    /// TikTok videos, and every platform without a table of its own.
    Videos,
    FacebookPosts,
    InstagramPosts,
    RedditPosts,
    TwitterTweets,
}

/// The tables that hold comments.
#[derive(Debug, Clone, Copy, PartialEq, Eq)]
pub enum CommentTable {
    /// TikTok comments, and every platform without a table of its own.
    Comments,
    FacebookComments,
    InstagramComments,
    RedditComments,
    TwitterComments,
}

/// The table a content is saved to, by its lowercased platform name.
pub open spec fn content_table_of(platform: Seq<char>) -> ContentTable {
    if platform == "facebook"@ {
        ContentTable::FacebookPosts
    } else if platform == "instagram"@ {
        ContentTable::InstagramPosts
    } else if platform == "reddit"@ {
        ContentTable::RedditPosts
    } else if platform == "twitter"@ {
        ContentTable::TwitterTweets
    } else {
        ContentTable::Videos
    }
}

/// The table a content is looked up in, by its lowercased platform name:
/// lookups know Facebook posts, tweets and videos only.
pub open spec fn lookup_table_of(platform: Seq<char>) -> ContentTable {
    if platform == "facebook"@ {
        ContentTable::FacebookPosts
    } else if platform == "twitter"@ {
        ContentTable::TwitterTweets
    } else {
        ContentTable::Videos
    }
}

/// The table an analysed comment is saved to, by its lowercased platform
/// name.
pub open spec fn comment_table_of(platform: Seq<char>) -> CommentTable {
    if platform == "facebook"@ {
        CommentTable::FacebookComments
    } else if platform == "instagram"@ {
        CommentTable::InstagramComments
    } else if platform == "reddit"@ {
        CommentTable::RedditComments
    } else if platform == "twitter"@ {
        CommentTable::TwitterComments
    } else {
        CommentTable::Comments
    }
}

/// Each of Facebook, Instagram, Reddit and Twitter has a comment table of its
/// own, which no other platform name reaches; every other name goes to the
/// generic comments table.
pub proof fn lemma_comment_table_per_platform(platform: Seq<char>)
    ensures
        (comment_table_of(platform) == CommentTable::FacebookComments) <==> platform == "facebook"@,
        (comment_table_of(platform) == CommentTable::InstagramComments) <==> platform == "instagram"@,
        (comment_table_of(platform) == CommentTable::RedditComments) <==> platform == "reddit"@,
        (comment_table_of(platform) == CommentTable::TwitterComments) <==> platform == "twitter"@,
        (comment_table_of(platform) == CommentTable::Comments) <==> (platform != "facebook"@ && platform
            != "instagram"@ && platform != "reddit"@ && platform != "twitter"@),
{
    reveal_strlit("facebook");
    reveal_strlit("instagram");
    reveal_strlit("reddit");
    reveal_strlit("twitter");
    assert("facebook"@ != "instagram"@ && "facebook"@ != "reddit"@ && "facebook"@ != "twitter"@ && "instagram"@
        != "reddit"@ && "instagram"@ != "twitter"@ && "reddit"@ != "twitter"@) by {
        assert("facebook"@[0] == 'f' && "instagram"@[0] == 'i' && "reddit"@[0] == 'r' && "twitter"@[0] == 't');
    }
}

/// The table a comment without analysis is saved to: Facebook and Twitter
/// (in any ASCII case) have their own, every other platform goes to the
/// comments table.
pub open spec fn plain_comment_table_of(platform: Seq<char>) -> CommentTable {
    if lower_ascii(platform) == lower_ascii("facebook"@) {
        CommentTable::FacebookComments
    } else if lower_ascii(platform) == lower_ascii("twitter"@) {
        CommentTable::TwitterComments
    } else {
        CommentTable::Comments
    }
}

/// The table a content of `platform` is saved to.
pub fn content_table_for(platform: &str) -> (r: ContentTable)
    ensures
        r == content_table_of(unicode_lowercase(platform@)),
        is_ascii_text(platform@) ==> r == content_table_of(lower_ascii(platform@)),
{
    let p = to_lowercase(platform);
    if str_eq(p.as_str(), "facebook") {
        ContentTable::FacebookPosts
    } else if str_eq(p.as_str(), "instagram") {
        ContentTable::InstagramPosts
    } else if str_eq(p.as_str(), "reddit") {
        ContentTable::RedditPosts
    } else if str_eq(p.as_str(), "twitter") {
        ContentTable::TwitterTweets
    } else {
        ContentTable::Videos
    }
}

/// The table a content of `platform` is looked up in.
pub fn lookup_table_for(platform: &str) -> (r: ContentTable)
    ensures
        r == lookup_table_of(unicode_lowercase(platform@)),
        is_ascii_text(platform@) ==> r == lookup_table_of(lower_ascii(platform@)),
{
    let p = to_lowercase(platform);
    if str_eq(p.as_str(), "facebook") {
        ContentTable::FacebookPosts
    } else if str_eq(p.as_str(), "twitter") {
        ContentTable::TwitterTweets
    } else {
        ContentTable::Videos
    }
}

/// The table an analysed comment of `platform` is saved to.
pub fn comment_table_for(platform: &str) -> (r: CommentTable)
    ensures
        r == comment_table_of(unicode_lowercase(platform@)),
        is_ascii_text(platform@) ==> r == comment_table_of(lower_ascii(platform@)),
{
    let p = to_lowercase(platform);
    if str_eq(p.as_str(), "facebook") {
        CommentTable::FacebookComments
    } else if str_eq(p.as_str(), "instagram") {
        CommentTable::InstagramComments
    } else if str_eq(p.as_str(), "reddit") {
        CommentTable::RedditComments
    } else if str_eq(p.as_str(), "twitter") {
        CommentTable::TwitterComments
    } else {
        CommentTable::Comments
    }
}

/// The table a comment of `platform` without analysis is saved to.
pub fn plain_comment_table_for(platform: &str) -> (r: CommentTable)
    ensures
        r == plain_comment_table_of(platform@),
{
    if eq_ignore_ascii_case(platform, "facebook") {
        CommentTable::FacebookComments
    } else if eq_ignore_ascii_case(platform, "twitter") {
        CommentTable::TwitterComments
    } else {
        CommentTable::Comments
    }
}

// ------------------------------------------------------------------
// Tweets and replies
// ------------------------------------------------------------------

/// `a` when present, else `b`.
pub open spec fn first_some<T>(a: Option<T>, b: Option<T>) -> Option<T> {
    match a {
        Some(x) => Some(x),
        None => b,
    }
}

/// `s`, unless it is empty.
pub open spec fn nonempty(s: String) -> Option<String> {
    if s@.len() == 0 {
        None
    } else {
        Some(s)
    }
}

/// The clamped value of an optional count.
pub open spec fn clamp_opt(n: Option<i64>) -> Option<i32> {
    match n {
        Some(v) => Some(clamp_i32(v as int)),
        None => None,
    }
}

/// The account block stored with a tweet: `user_info`, else `author`.
pub open spec fn tweet_account(t: TweetFields) -> Option<TweetUser> {
    first_some(t.user_info, t.author)
}

/// The account block stored with a reply: `author`, else `user_info`.
pub open spec fn reply_account(t: TweetFields) -> Option<TweetUser> {
    first_some(t.author, t.user_info)
}

/// Whether a row's account columns hold `account`: description, clamped
/// follower count, avatar, and `verified` else `blue_verified`.
pub open spec fn account_columns(
    account: Option<TweetUser>,
    description: Option<String>,
    followers: Option<i32>,
    avatar: Option<String>,
    verified: Option<bool>,
) -> bool {
    match account {
        Some(u) => {
            &&& description == u.description
            &&& followers == clamp_opt(u.followers_count)
            &&& avatar == u.avatar
            &&& verified == first_some(u.verified, u.blue_verified)
        },
        None => description is None && followers is None && avatar is None && verified is None,
    }
}

/// The media column: the tweet's media addresses, or nothing when it has
/// none.
pub open spec fn media_column(urls: Vec<String>) -> Option<Vec<String>> {
    if urls@.len() == 0 {
        None
    } else {
        Some(urls)
    }
}

/// A stored tweet (every column the repository writes).
#[derive(Debug, Clone)]
pub struct TwitterTweetRecord {
    /// The task id, 0 when the tweet was saved outside a task.
    pub task_id: i32,
    pub campaign_id: Option<i32>,
    pub twitter_tweet_id: String,
    pub conversation_id: Option<String>,
    pub full_text: String,
    pub lang: Option<String>,
    pub screen_name: Option<String>,
    pub user_name: Option<String>,
    pub user_id: Option<String>,
    pub user_description: Option<String>,
    pub user_followers_count: Option<i32>,
    pub user_avatar: Option<String>,
    pub user_verified: Option<bool>,
    pub media_urls: Option<Vec<String>>,
    pub has_media: Option<bool>,
    pub favorite_count: Option<i32>,
    pub retweet_count: Option<i32>,
    pub reply_count: Option<i32>,
    pub quote_count: Option<i32>,
    pub bookmark_count: Option<i32>,
    pub view_count: Option<i32>,
    pub is_reply: Option<bool>,
    pub in_reply_to_status_id: Option<String>,
    pub in_reply_to_user_id: Option<String>,
    pub created_at_str: Option<String>,
    /// Creation time (Unix seconds).
    pub created_at_ts: Option<i64>,
}

/// A stored reply to a tweet, with its analysis.
#[derive(Debug, Clone)]
pub struct TwitterCommentRecord {
    pub tweet_db_id: i32,
    pub campaign_id: i32,
    pub twitter_comment_id: String,
    pub conversation_id: Option<String>,
    pub comment_screen_name: Option<String>,
    pub comment_user_name: Option<String>,
    pub comment_user_id: Option<String>,
    pub comment_user_followers: Option<i32>,
    pub comment_text: String,
    pub reason: Option<String>,
    pub suggested_reply: Option<String>,
    pub favorite_count: Option<i32>,
    pub retweet_count: Option<i32>,
    pub reply_count: Option<i32>,
    pub in_reply_to_status_id: Option<String>,
    pub is_reply: Option<bool>,
    pub media_urls: Option<Vec<String>>,
    pub has_media: Option<bool>,
    pub created_at_str: Option<String>,
    /// Creation time (Unix seconds).
    pub created_at_ts: Option<i64>,
    pub suggested_dm: Option<String>,
    pub suggested_reply_post: Option<String>,
}

fn nonempty_copy(s: &String) -> (r: Option<String>)
    ensures
        r == nonempty(*s),
{
    if s.as_str().is_empty() {
        None
    } else {
        Some(s.clone())
    }
}

fn copy_text(o: &Option<String>) -> (r: Option<String>)
    ensures
        r == *o,
{
    match o {
        Some(s) => Some(s.clone()),
        None => None,
    }
}

fn clamp_count(n: Option<i64>) -> (r: Option<i32>)
    ensures
        r == clamp_opt(n),
{
    match n {
        Some(v) => Some(i64_to_i32(v)),
        None => None,
    }
}

fn first_flag(a: Option<bool>, b: Option<bool>) -> (r: Option<bool>)
    ensures
        r == first_some(a, b),
{
    match a {
        Some(x) => Some(x),
        None => b,
    }
}

fn account_parts(account: Option<TweetUser>) -> (r: (Option<String>, Option<i32>, Option<String>, Option<bool>))
    ensures
        account_columns(account, r.0, r.1, r.2, r.3),
{
    match account {
        Some(u) => (u.description, clamp_count(u.followers_count), u.avatar, first_flag(u.verified, u.blue_verified)),
        None => (None, None, None, None),
    }
}

fn media_of(urls: Vec<String>) -> (r: Option<Vec<String>>)
    ensures
        r == media_column(urls),
{
    if urls.len() == 0 {
        None
    } else {
        Some(urls)
    }
}

/// The row of a tweet saved for a task.  `parsed` is the tweet read back
/// from the content's raw document, when that document is a tweet; its
/// fields take precedence, and the content's own fields fill in where it is
/// missing.
pub fn twitter_tweet_record(
    content: &Content,
    campaign_id: Option<i32>,
    task_id: Option<i32>,
    parsed: Option<TweetFields>,
) -> (r: TwitterTweetRecord)
    ensures
        r.task_id == (match task_id {
            Some(t) => t,
            None => 0,
        }),
        r.campaign_id == campaign_id,
        r.twitter_tweet_id == content.content_id,
        r.full_text == content.description,
        match parsed {
            Some(t) => {
                &&& r.conversation_id == t.conversation_id
                &&& r.lang == t.lang
                &&& r.screen_name == first_some(t.screen_name, nonempty(content.author))
                &&& r.user_name == first_some(t.author_name, content.author_name)
                &&& r.user_id == t.user_id
                &&& account_columns(
                    tweet_account(t),
                    r.user_description,
                    r.user_followers_count,
                    r.user_avatar,
                    r.user_verified,
                )
                &&& r.media_urls == media_column(t.media_urls)
                &&& r.has_media == Some(t.has_media)
                &&& r.favorite_count == Some(clamp_i32(t.like_count as int))
                &&& r.retweet_count == Some(clamp_i32(t.retweet_count as int))
                &&& r.reply_count == Some(clamp_i32(t.reply_count as int))
                &&& r.quote_count == Some(clamp_i32(t.quote_count as int))
                &&& r.bookmark_count == Some(clamp_i32(t.bookmark_count as int))
                &&& r.view_count == Some(clamp_i32(t.view_count as int))
                &&& r.is_reply == Some(t.is_reply)
                &&& r.in_reply_to_status_id == t.in_reply_to_status_id
                &&& r.in_reply_to_user_id == t.in_reply_to_user_id
                &&& r.created_at_str == t.created_at
                &&& r.created_at_ts == first_some(content.created_at, t.created_at_timestamp)
            },
            None => {
                &&& r.conversation_id is None
                &&& r.lang is None
                &&& r.screen_name == nonempty(content.author)
                &&& r.user_name == content.author_name
                &&& r.user_id is None
                &&& account_columns(
                    None,
                    r.user_description,
                    r.user_followers_count,
                    r.user_avatar,
                    r.user_verified,
                )
                &&& r.media_urls is None
                &&& r.has_media is None
                &&& r.favorite_count == Some(clamp_i32(content.engagement.likes as int))
                &&& r.retweet_count == Some(clamp_i32(content.engagement.shares as int))
                &&& r.reply_count == Some(clamp_i32(content.engagement.comments as int))
                &&& r.quote_count is None
                &&& r.bookmark_count is None
                &&& r.view_count == Some(clamp_i32(content.engagement.views as int))
                &&& r.is_reply is None
                &&& r.in_reply_to_status_id is None
                &&& r.in_reply_to_user_id is None
                &&& r.created_at_str is None
                &&& r.created_at_ts == content.created_at
            },
        },
{
    let task = match task_id {
        Some(t) => t,
        None => 0,
    };
    match parsed {
        Some(t) => {
            let account = match t.user_info {
                Some(u) => Some(u),
                None => t.author,
            };
            let (user_description, user_followers_count, user_avatar, user_verified) = account_parts(account);
            let screen_name = match t.screen_name {
                Some(h) => Some(h),
                None => nonempty_copy(&content.author),
            };
            let user_name = match t.author_name {
                Some(n) => Some(n),
                None => copy_text(&content.author_name),
            };
            let created_at_ts = match content.created_at {
                Some(ts) => Some(ts),
                None => t.created_at_timestamp,
            };
            TwitterTweetRecord {
                task_id: task,
                campaign_id,
                twitter_tweet_id: content.content_id.clone(),
                conversation_id: t.conversation_id,
                full_text: content.description.clone(),
                lang: t.lang,
                screen_name,
                user_name,
                user_id: t.user_id,
                user_description,
                user_followers_count,
                user_avatar,
                user_verified,
                media_urls: media_of(t.media_urls),
                has_media: Some(t.has_media),
                favorite_count: Some(i64_to_i32(t.like_count)),
                retweet_count: Some(i64_to_i32(t.retweet_count)),
                reply_count: Some(i64_to_i32(t.reply_count)),
                quote_count: Some(i64_to_i32(t.quote_count)),
                bookmark_count: Some(i64_to_i32(t.bookmark_count)),
                view_count: Some(i64_to_i32(t.view_count)),
                is_reply: Some(t.is_reply),
                in_reply_to_status_id: t.in_reply_to_status_id,
                in_reply_to_user_id: t.in_reply_to_user_id,
                created_at_str: t.created_at,
                created_at_ts,
            }
        },
        None => TwitterTweetRecord {
            task_id: task,
            campaign_id,
            twitter_tweet_id: content.content_id.clone(),
            conversation_id: None,
            full_text: content.description.clone(),
            lang: None,
            screen_name: nonempty_copy(&content.author),
            user_name: copy_text(&content.author_name),
            user_id: None,
            user_description: None,
            user_followers_count: None,
            user_avatar: None,
            user_verified: None,
            media_urls: None,
            has_media: None,
            favorite_count: Some(i64_to_i32(content.engagement.likes)),
            retweet_count: Some(i64_to_i32(content.engagement.shares)),
            reply_count: Some(i64_to_i32(content.engagement.comments)),
            quote_count: None,
            bookmark_count: None,
            view_count: Some(i64_to_i32(content.engagement.views)),
            is_reply: None,
            in_reply_to_status_id: None,
            in_reply_to_user_id: None,
            created_at_str: None,
            created_at_ts: content.created_at,
        },
    }
}

/// The row of a reply saved with its analysis under the tweet row
/// `tweet_db_id`.  `parsed` is the reply read back from the comment's raw
/// document, when that document is a tweet; its fields take precedence, and
/// the comment's own fields fill in where it is missing.
pub fn twitter_comment_record(
    comment: &Comment,
    tweet_db_id: i32,
    campaign_id: i32,
    suggestion: &ReplySuggestion,
    parsed: Option<TweetFields>,
) -> (r: TwitterCommentRecord)
    ensures
        r.tweet_db_id == tweet_db_id,
        r.campaign_id == campaign_id,
        r.twitter_comment_id == comment.comment_id,
        r.comment_text == comment.text,
        r.reason == suggestion.reason,
        r.suggested_reply == suggestion.reply_text,
        r.suggested_dm == suggestion.dm_text,
        r.suggested_reply_post == suggestion.post_reply_text,
        match parsed {
            Some(t) => {
                &&& r.conversation_id == first_some(t.conversation_id, nonempty(comment.content_id))
                &&& r.comment_screen_name == first_some(t.screen_name, nonempty(comment.author))
                &&& r.comment_user_name == first_some(t.author_name, comment.author_name)
                &&& r.comment_user_id == first_some(t.user_id, comment.author_uid)
                &&& r.comment_user_followers == match reply_account(t) {
                    Some(u) => clamp_opt(u.followers_count),
                    None => None,
                }
                &&& r.favorite_count == Some(clamp_i32(t.like_count as int))
                &&& r.retweet_count == Some(clamp_i32(t.retweet_count as int))
                &&& r.reply_count == Some(clamp_i32(t.reply_count as int))
                &&& r.in_reply_to_status_id == first_some(t.in_reply_to_status_id, comment.parent_id)
                &&& r.is_reply == Some(t.is_reply)
                &&& r.media_urls == media_column(t.media_urls)
                &&& r.has_media == Some(t.has_media)
                &&& r.created_at_str == t.created_at
                &&& r.created_at_ts == first_some(comment.created_at, t.created_at_timestamp)
            },
            None => {
                &&& r.conversation_id == nonempty(comment.content_id)
                &&& r.comment_screen_name == nonempty(comment.author)
                &&& r.comment_user_name == comment.author_name
                &&& r.comment_user_id == comment.author_uid
                &&& r.comment_user_followers is None
                &&& r.favorite_count == Some(clamp_i32(comment.likes as int))
                &&& r.retweet_count is None
                &&& r.reply_count == Some(comment.reply_count)
                &&& r.in_reply_to_status_id == comment.parent_id
                &&& r.is_reply == Some(comment.is_reply)
                &&& r.media_urls is None
                &&& r.has_media is None
                &&& r.created_at_str is None
                &&& r.created_at_ts == comment.created_at
            },
        },
{
    let reason = copy_text(&suggestion.reason);
    let suggested_reply = copy_text(&suggestion.reply_text);
    let suggested_dm = copy_text(&suggestion.dm_text);
    let suggested_reply_post = copy_text(&suggestion.post_reply_text);
    match parsed {
        Some(t) => {
            let account = match t.author {
                Some(u) => Some(u),
                None => t.user_info,
            };
            let comment_user_followers = match account {
                Some(u) => clamp_count(u.followers_count),
                None => None,
            };
            TwitterCommentRecord {
                tweet_db_id,
                campaign_id,
                twitter_comment_id: comment.comment_id.clone(),
                conversation_id: match t.conversation_id {
                    Some(c) => Some(c),
                    None => nonempty_copy(&comment.content_id),
                },
                comment_screen_name: match t.screen_name {
                    Some(h) => Some(h),
                    None => nonempty_copy(&comment.author),
                },
                comment_user_name: match t.author_name {
                    Some(n) => Some(n),
                    None => copy_text(&comment.author_name),
                },
                comment_user_id: match t.user_id {
                    Some(u) => Some(u),
                    None => copy_text(&comment.author_uid),
                },
                comment_user_followers,
                comment_text: comment.text.clone(),
                reason,
                suggested_reply,
                favorite_count: Some(i64_to_i32(t.like_count)),
                retweet_count: Some(i64_to_i32(t.retweet_count)),
                reply_count: Some(i64_to_i32(t.reply_count)),
                in_reply_to_status_id: match t.in_reply_to_status_id {
                    Some(p) => Some(p),
                    None => copy_text(&comment.parent_id),
                },
                is_reply: Some(t.is_reply),
                media_urls: media_of(t.media_urls),
                has_media: Some(t.has_media),
                created_at_str: t.created_at,
                created_at_ts: match comment.created_at {
                    Some(ts) => Some(ts),
                    None => t.created_at_timestamp,
                },
                suggested_dm,
                suggested_reply_post,
            }
        },
        None => TwitterCommentRecord {
            tweet_db_id,
            campaign_id,
            twitter_comment_id: comment.comment_id.clone(),
            conversation_id: nonempty_copy(&comment.content_id),
            comment_screen_name: nonempty_copy(&comment.author),
            comment_user_name: copy_text(&comment.author_name),
            comment_user_id: copy_text(&comment.author_uid),
            comment_user_followers: None,
            comment_text: comment.text.clone(),
            reason,
            suggested_reply,
            favorite_count: Some(i64_to_i32(comment.likes)),
            retweet_count: None,
            reply_count: Some(comment.reply_count),
            in_reply_to_status_id: copy_text(&comment.parent_id),
            is_reply: Some(comment.is_reply),
            media_urls: None,
            has_media: None,
            created_at_str: None,
            created_at_ts: comment.created_at,
            suggested_dm,
            suggested_reply_post,
        },
    }
}

// ------------------------------------------------------------------
// Facebook posts
// ------------------------------------------------------------------

/// The fields of a Facebook post's raw document that its row reads: text
/// fields as text (numbers and booleans written out), numeric fields as
/// integers, and whether a non-null `image` or `video` block is present.
#[derive(Debug, Clone)]
pub struct FacebookPostRaw {
    pub post_type: Option<String>,
    pub message_rich: Option<String>,
    pub timestamp: Option<i64>,
    pub reactions_like: Option<i64>,
    pub reactions_love: Option<i64>,
    pub reactions_haha: Option<i64>,
    pub reactions_wow: Option<i64>,
    pub reactions_sad: Option<i64>,
    pub reactions_angry: Option<i64>,
    pub reactions_care: Option<i64>,
    pub author_id: Option<String>,
    pub author_name: Option<String>,
    pub author_url: Option<String>,
    pub author_profile_picture_url: Option<String>,
    pub author_title: Option<String>,
    pub has_image: bool,
    pub image_uri: Option<String>,
    pub image_width: Option<i64>,
    pub image_height: Option<i64>,
    pub image_id: Option<String>,
    pub has_video: bool,
    pub video_thumbnail: Option<String>,
    pub external_url: Option<String>,
    pub attached_post_url: Option<String>,
    pub comments_id: Option<String>,
    pub shares_id: Option<String>,
}

/// A stored Facebook post (every column the repository writes).
#[derive(Debug, Clone)]
pub struct FacebookPostRecord {
    /// The task id, 0 when the post was saved outside a task.
    pub task_id: i32,
    pub campaign_id: Option<i32>,
    pub facebook_post_id: String,
    pub post_type: Option<String>,
    pub url: Option<String>,
    pub message: Option<String>,
    pub message_rich: Option<String>,
    /// Posting time (Unix seconds).
    pub timestamp: Option<i64>,
    pub reactions_count: Option<i32>,
    pub comments_count: Option<i32>,
    pub reshare_count: Option<i32>,
    pub reactions_like: Option<i32>,
    pub reactions_love: Option<i32>,
    pub reactions_haha: Option<i32>,
    pub reactions_wow: Option<i32>,
    pub reactions_sad: Option<i32>,
    pub reactions_angry: Option<i32>,
    pub reactions_care: Option<i32>,
    pub author_id: Option<String>,
    pub author_name: Option<String>,
    pub author_url: Option<String>,
    pub author_profile_picture_url: Option<String>,
    pub author_title: Option<String>,
    pub has_image: Option<bool>,
    pub image_url: Option<String>,
    pub image_width: Option<i32>,
    pub image_height: Option<i32>,
    pub image_id: Option<String>,
    pub has_video: Option<bool>,
    pub video_thumbnail: Option<String>,
    pub external_url: Option<String>,
    pub attached_post_url: Option<String>,
    pub comments_id: Option<String>,
    pub shares_id: Option<String>,
}

/// An optional count narrowed to 32 bits by truncation.
pub open spec fn narrow_opt(n: Option<i64>) -> Option<i32> {
    match n {
        Some(v) => Some(v as i32),
        None => None,
    }
}

fn narrow(n: Option<i64>) -> (r: Option<i32>)
    ensures
        r == narrow_opt(n),
{
    match n {
        Some(v) => Some(v as i32),
        None => None,
    }
}

/// The row of a Facebook post saved for a task: the content's own fields,
/// the raw document's details, and the raw document's timestamp, rich text
/// and author where it has them.  Engagement counts are narrowed to 32 bits
/// by truncation.
pub fn facebook_post_record(
    content: &Content,
    campaign_id: Option<i32>,
    task_id: Option<i32>,
    raw: FacebookPostRaw,
) -> (r: FacebookPostRecord)
    ensures
        r.task_id == (match task_id {
            Some(t) => t,
            None => 0,
        }),
        r.campaign_id == campaign_id,
        r.facebook_post_id == content.content_id,
        r.post_type == raw.post_type,
        r.url == content.url,
        r.message == Some(content.description),
        r.message_rich == first_some(raw.message_rich, Some(content.description)),
        r.timestamp == first_some(raw.timestamp, content.created_at),
        r.reactions_count == Some(content.engagement.likes as i32),
        r.comments_count == Some(content.engagement.comments as i32),
        r.reshare_count == Some(content.engagement.shares as i32),
        r.reactions_like == narrow_opt(raw.reactions_like),
        r.reactions_love == narrow_opt(raw.reactions_love),
        r.reactions_haha == narrow_opt(raw.reactions_haha),
        r.reactions_wow == narrow_opt(raw.reactions_wow),
        r.reactions_sad == narrow_opt(raw.reactions_sad),
        r.reactions_angry == narrow_opt(raw.reactions_angry),
        r.reactions_care == narrow_opt(raw.reactions_care),
        r.author_id == first_some(raw.author_id, Some(content.author)),
        r.author_name == first_some(raw.author_name, content.author_name),
        r.author_url == raw.author_url,
        r.author_profile_picture_url == raw.author_profile_picture_url,
        r.author_title == raw.author_title,
        r.has_image == Some(raw.has_image),
        r.image_url == raw.image_uri,
        r.image_width == narrow_opt(raw.image_width),
        r.image_height == narrow_opt(raw.image_height),
        r.image_id == raw.image_id,
        r.has_video == Some(raw.has_video),
        r.video_thumbnail == raw.video_thumbnail,
        r.external_url == raw.external_url,
        r.attached_post_url == raw.attached_post_url,
        r.comments_id == raw.comments_id,
        r.shares_id == raw.shares_id,
{
    let task = match task_id {
        Some(t) => t,
        None => 0,
    };
    FacebookPostRecord {
        task_id: task,
        campaign_id,
        facebook_post_id: content.content_id.clone(),
        post_type: raw.post_type,
        url: copy_text(&content.url),
        message: Some(content.description.clone()),
        message_rich: match raw.message_rich {
            Some(m) => Some(m),
            None => Some(content.description.clone()),
        },
        timestamp: match raw.timestamp {
            Some(ts) => Some(ts),
            None => content.created_at,
        },
        reactions_count: Some(content.engagement.likes as i32),
        comments_count: Some(content.engagement.comments as i32),
        reshare_count: Some(content.engagement.shares as i32),
        reactions_like: narrow(raw.reactions_like),
        reactions_love: narrow(raw.reactions_love),
        reactions_haha: narrow(raw.reactions_haha),
        reactions_wow: narrow(raw.reactions_wow),
        reactions_sad: narrow(raw.reactions_sad),
        reactions_angry: narrow(raw.reactions_angry),
        reactions_care: narrow(raw.reactions_care),
        author_id: match raw.author_id {
            Some(a) => Some(a),
            None => Some(content.author.clone()),
        },
        author_name: match raw.author_name {
            Some(a) => Some(a),
            None => copy_text(&content.author_name),
        },
        author_url: raw.author_url,
        author_profile_picture_url: raw.author_profile_picture_url,
        author_title: raw.author_title,
        has_image: Some(raw.has_image),
        image_url: raw.image_uri,
        image_width: narrow(raw.image_width),
        image_height: narrow(raw.image_height),
        image_id: raw.image_id,
        has_video: Some(raw.has_video),
        video_thumbnail: raw.video_thumbnail,
        external_url: raw.external_url,
        attached_post_url: raw.attached_post_url,
        comments_id: raw.comments_id,
        shares_id: raw.shares_id,
    }
}

// ------------------------------------------------------------------
// Instagram and Reddit posts
// ------------------------------------------------------------------

/// The fields of an Instagram post's raw document that its row reads, each
/// under its own path; text fields as text (numbers written out).
#[derive(Debug, Clone)]
pub struct InstagramPostRaw {
    pub media_type: Option<i64>,
    pub product_type: Option<String>,
    /// `pk`.
    pub pk: Option<String>,
    /// `id`.
    pub id: Option<String>,
    /// `user.pk`.
    pub user_pk: Option<String>,
    /// `user.id`.
    pub user_id: Option<String>,
    pub thumbnail_url: Option<String>,
    /// `image_versions2.candidates[0].url`.
    pub first_candidate_url: Option<String>,
}

/// A stored Instagram post (every column the repository writes).
#[derive(Debug, Clone)]
pub struct InstagramPostRecord {
    pub task_id: i32,
    pub campaign_id: Option<i32>,
    /// The shortcode.
    pub code: String,
    pub instagram_id: Option<String>,
    pub media_type: i32,
    pub product_type: String,
    pub caption_text: String,
    pub owner_username: String,
    pub owner_id: Option<String>,
    pub owner_full_name: Option<String>,
    pub media_url: Option<String>,
    pub thumbnail_url: Option<String>,
    pub like_count: i32,
    pub comment_count: i32,
    pub play_count: i32,
    /// Posting time (Unix seconds).
    pub taken_at_ts: Option<i64>,
}

/// The row of an Instagram post saved for a task: its media type (1 when
/// the document has none, truncated to 32 bits) and product type (`feed`
/// when none), its id from `pk` else `id`, its owner id from `user.pk` else
/// `user.id`, its thumbnail from `thumbnail_url` else the first image
/// candidate, and the content's own fields; counts are narrowed to 32 bits
/// by truncation.
pub fn instagram_post_record(
    content: &Content,
    campaign_id: Option<i32>,
    task_id: Option<i32>,
    raw: InstagramPostRaw,
) -> (r: InstagramPostRecord)
    ensures
        r.task_id == (match task_id {
            Some(t) => t,
            None => 0,
        }),
        r.campaign_id == campaign_id,
        r.code == content.content_id,
        r.instagram_id == first_some(raw.pk, raw.id),
        r.media_type == (match raw.media_type {
            Some(m) => m,
            None => 1,
        }) as i32,
        r.product_type@ == (match raw.product_type {
            Some(p) => p@,
            None => "feed"@,
        }),
        r.caption_text == content.description,
        r.owner_username == content.author,
        r.owner_id == first_some(raw.user_pk, raw.user_id),
        r.owner_full_name == content.author_name,
        r.media_url == content.url,
        r.thumbnail_url == first_some(raw.thumbnail_url, raw.first_candidate_url),
        r.like_count == content.engagement.likes as i32,
        r.comment_count == content.engagement.comments as i32,
        r.play_count == content.engagement.views as i32,
        r.taken_at_ts == content.created_at,
{
    InstagramPostRecord {
        task_id: match task_id {
            Some(t) => t,
            None => 0,
        },
        campaign_id,
        code: content.content_id.clone(),
        instagram_id: match raw.pk {
            Some(p) => Some(p),
            None => raw.id,
        },
        media_type: (match raw.media_type {
            Some(m) => m,
            None => 1,
        }) as i32,
        product_type: match raw.product_type {
            Some(p) => p,
            None => to_owned_string("feed"),
        },
        caption_text: content.description.clone(),
        owner_username: content.author.clone(),
        owner_id: match raw.user_pk {
            Some(p) => Some(p),
            None => raw.user_id,
        },
        owner_full_name: copy_text(&content.author_name),
        media_url: copy_text(&content.url),
        thumbnail_url: match raw.thumbnail_url {
            Some(t) => Some(t),
            None => raw.first_candidate_url,
        },
        like_count: content.engagement.likes as i32,
        comment_count: content.engagement.comments as i32,
        play_count: content.engagement.views as i32,
        taken_at_ts: content.created_at,
    }
}

/// The fields of a Reddit post's raw document that its row reads.
#[derive(Debug, Clone)]
pub struct RedditPostRaw {
    pub subreddit: Option<String>,
    pub title: Option<String>,
    pub score: Option<i64>,
    pub num_comments: Option<i64>,
    pub permalink: Option<String>,
}

/// A stored Reddit post (every column the repository writes but the
/// upvote ratio, a floating-point value the document carries as is).
#[derive(Debug, Clone)]
pub struct RedditPostRecord {
    pub task_id: i32,
    pub campaign_id: Option<i32>,
    pub post_id: String,
    pub subreddit: String,
    pub title: String,
    pub selftext: String,
    pub author: String,
    pub author_fullname: Option<String>,
    pub score: i32,
    pub num_comments: i32,
    pub permalink: Option<String>,
    pub url: Option<String>,
    /// Creation time (Unix seconds).
    pub created_utc: Option<i64>,
}

/// The row of a Reddit post saved for a task: subreddit and title from the
/// document (empty when absent), its score (0 when absent) and comment
/// count (the content's when absent), both truncated to 32 bits, its
/// permalink, and the content's own fields.
pub fn reddit_post_record(
    content: &Content,
    campaign_id: Option<i32>,
    task_id: Option<i32>,
    raw: RedditPostRaw,
) -> (r: RedditPostRecord)
    ensures
        r.task_id == (match task_id {
            Some(t) => t,
            None => 0,
        }),
        r.campaign_id == campaign_id,
        r.post_id == content.content_id,
        r.subreddit@ == (match raw.subreddit {
            Some(x) => x@,
            None => Seq::<char>::empty(),
        }),
        r.title@ == (match raw.title {
            Some(x) => x@,
            None => Seq::<char>::empty(),
        }),
        r.selftext == content.description,
        r.author == content.author,
        r.author_fullname == content.author_name,
        r.score == (match raw.score {
            Some(v) => v,
            None => 0,
        }) as i32,
        r.num_comments == (match raw.num_comments {
            Some(v) => v,
            None => content.engagement.comments,
        }) as i32,
        r.permalink == raw.permalink,
        r.url == content.url,
        r.created_utc == content.created_at,
{
    RedditPostRecord {
        task_id: match task_id {
            Some(t) => t,
            None => 0,
        },
        campaign_id,
        post_id: content.content_id.clone(),
        subreddit: match raw.subreddit {
            Some(x) => x,
            None => String::new(),
        },
        title: match raw.title {
            Some(x) => x,
            None => String::new(),
        },
        selftext: content.description.clone(),
        author: content.author.clone(),
        author_fullname: copy_text(&content.author_name),
        score: (match raw.score {
            Some(v) => v,
            None => 0,
        }) as i32,
        num_comments: (match raw.num_comments {
            Some(v) => v,
            None => content.engagement.comments,
        }) as i32,
        permalink: raw.permalink,
        url: copy_text(&content.url),
        created_utc: content.created_at,
    }
}

// ------------------------------------------------------------------
// Stored analyses
// ------------------------------------------------------------------

/// The columns of a stored comment that its analysis is read from (the
/// comment tables of every platform have them).
#[derive(Debug, Clone)]
pub struct AnalysisColumns {
    pub id: i32,
    pub campaign_id: Option<i32>,
    pub suggested_reply: Option<String>,
    pub suggested_dm: Option<String>,
    pub suggested_reply_post: Option<String>,
    pub reason: Option<String>,
}

/// A stored comment carries an analysis when any of its three suggestions
/// is present.
pub open spec fn has_analysis(row: AnalysisColumns) -> bool {
    row.suggested_reply is Some || row.suggested_dm is Some || row.suggested_reply_post is Some
}

/// The analysis a comment row carries, if any: the comment's id as its own
/// id, campaign 0 when the row has none, and no token count or model.
pub open spec fn analysis_of(row: AnalysisColumns) -> Option<StoredAnalysis> {
    if has_analysis(row) {
        Some(
            StoredAnalysis {
                id: row.id,
                comment_id: row.id,
                campaign_id: match row.campaign_id {
                    Some(c) => c,
                    None => 0,
                },
                suggested_reply: row.suggested_reply,
                suggested_dm: row.suggested_dm,
                suggested_reply_post: row.suggested_reply_post,
                reason: row.reason,
                tokens_used: None,
                model_name: None,
            },
        )
    } else {
        None
    }
}

/// The analysis carried by a looked-up row, if there is a row.
pub open spec fn analysis_of_lookup(row: Option<AnalysisColumns>) -> Option<StoredAnalysis> {
    match row {
        Some(x) => analysis_of(x),
        None => None,
    }
}

/// The analysis stored with a comment row, if it carries one.  The analysis
/// takes the comment's id as its own, and campaign 0 when the row has none.
pub fn stored_analysis(row: AnalysisColumns) -> (r: Option<StoredAnalysis>)
    ensures
        r == analysis_of(row),
        r is Some <==> has_analysis(row),
        r matches Some(a) ==> {
            &&& a.id == row.id
            &&& a.comment_id == row.id
            &&& a.campaign_id == (match row.campaign_id {
                Some(c) => c,
                None => 0,
            })
            &&& a.suggested_reply == row.suggested_reply
            &&& a.suggested_dm == row.suggested_dm
            &&& a.suggested_reply_post == row.suggested_reply_post
            &&& a.reason == row.reason
            &&& a.tokens_used is None
            &&& a.model_name is None
        },
{
    if row.suggested_reply.is_some() || row.suggested_dm.is_some() || row.suggested_reply_post.is_some() {
        Some(
            StoredAnalysis {
                id: row.id,
                comment_id: row.id,
                campaign_id: match row.campaign_id {
                    Some(c) => c,
                    None => 0,
                },
                suggested_reply: row.suggested_reply,
                suggested_dm: row.suggested_dm,
                suggested_reply_post: row.suggested_reply_post,
                reason: row.reason,
                tokens_used: None,
                model_name: None,
            },
        )
    } else {
        None
    }
}

/// The analysis of a comment over the comment tables, tried in order: the
/// comments table, then the Facebook comments, then the tweet replies.  Each
/// argument is what the lookup of the comment's id in that table found; the
/// analysis is that of the first row found that carries one.
pub fn first_stored_analysis(
    comments_row: Option<AnalysisColumns>,
    facebook_row: Option<AnalysisColumns>,
    twitter_row: Option<AnalysisColumns>,
) -> (r: Option<StoredAnalysis>)
    ensures
        r == first_some(
            analysis_of_lookup(comments_row),
            first_some(analysis_of_lookup(facebook_row), analysis_of_lookup(twitter_row)),
        ),
{
    if let Some(row) = comments_row {
        if let Some(a) = stored_analysis(row) {
            return Some(a);
        }
    }
    if let Some(row) = facebook_row {
        if let Some(a) = stored_analysis(row) {
            return Some(a);
        }
    }
    match twitter_row {
        Some(row) => stored_analysis(row),
        None => None,
    }
}

// ------------------------------------------------------------------
// Reply templates
// ------------------------------------------------------------------

/// A campaign's reply template: its drawing weight and its prompts.
#[derive(Debug, Clone)]
pub struct CampaignTemplate {
    pub id: i32,
    pub campaign_id: i32,
    pub weight: i32,
    pub reply_prompt: Option<String>,
    pub dm_prompt: Option<String>,
    pub reply_post_prompt: Option<String>,
}

/// The weight a template is drawn with: its weight, but at least 1.
pub open spec fn draw_weight(w: i32) -> int {
    if w < 1 {
        1
    } else {
        w as int
    }
}

/// The summed draw weights of the first `n` templates.
pub open spec fn weight_before(ts: Seq<CampaignTemplate>, n: int) -> int
    decreases n,
{
    if n <= 0 {
        0
    } else {
        weight_before(ts, n - 1) + draw_weight(ts[n - 1].weight)
    }
}

/// The summed draw weights of all templates.
pub open spec fn total_weight(ts: Seq<CampaignTemplate>) -> int {
    weight_before(ts, ts.len() as int)
}

/// Template `i` is drawn for the point `point` when the point falls in its
/// slice of `0..total_weight(ts)`.
pub open spec fn drawn_for(ts: Seq<CampaignTemplate>, point: int, i: int) -> bool {
    &&& 0 <= i < ts.len()
    &&& weight_before(ts, i) <= point < weight_before(ts, i + 1)
}

proof fn lemma_weight_before_grows(ts: Seq<CampaignTemplate>, i: int, j: int)
    requires
        0 <= i <= j <= ts.len(),
    ensures
        weight_before(ts, i) + (j - i) <= weight_before(ts, j),
        0 <= weight_before(ts, i),
    decreases j,
{
    if j > 0 {
        if i < j {
            lemma_weight_before_grows(ts, i, j - 1);
        } else {
            lemma_weight_before_grows(ts, j - 1, j - 1);
        }
    }
}

/// The summed draw weight of the templates.
pub fn total_template_weight(templates: &Vec<CampaignTemplate>) -> (r: i32)
    requires
        total_weight(templates@) <= i32::MAX,
    ensures
        r == total_weight(templates@),
{
    let mut total: i32 = 0;
    let mut i: usize = 0;
    while i < templates.len()
        invariant
            i <= templates.len(),
            total == weight_before(templates@, i as int),
            total_weight(templates@) <= i32::MAX,
        decreases templates.len() - i,
    {
        proof {
            lemma_weight_before_grows(templates@, i + 1, templates@.len() as int);
        }
        let w = templates[i].weight;
        let d: i32 = if w < 1 {
            1
        } else {
            w
        };
        total = total + d;
        i = i + 1;
    }
    total
}

/// The template drawn for `point`, a number drawn from
/// `0..total_weight(templates)`: templates are laid side by side, each as
/// wide as its draw weight, and the one the point falls on is drawn.
pub fn pick_template(templates: &Vec<CampaignTemplate>, point: i32) -> (r: usize)
    requires
        0 <= point < total_weight(templates@),
    ensures
        drawn_for(templates@, point as int, r as int),
{
    let ghost ts = templates@;
    let mut rest: i32 = point;
    let mut i: usize = 0;
    while i < templates.len()
        invariant
            ts == templates@,
            i <= ts.len(),
            rest == point - weight_before(ts, i as int),
            0 <= rest,
            point < total_weight(ts),
        decreases ts.len() - i,
    {
        let w = templates[i].weight;
        let d: i32 = if w < 1 {
            1
        } else {
            w
        };
        if rest < d {
            return i;
        }
        rest = rest - d;
        i = i + 1;
    }
    proof {
        assert(false);
    }
    0
}

/// `rand::thread_rng().gen_range(0..bound)`: a number that the thread's
/// random generator draws uniformly from `0..bound`.  What is promised is
/// only that it lies in the range.  rand panics on an empty range, hence
/// `bound > 0`; it also panics when the operating system cannot seed the
/// generator, which no argument can rule out.
#[verifier::external_body]
fn random_below(bound: i32) -> (r: i32)
    requires
        bound > 0,
    ensures
        0 <= r < bound,
{
    rand::Rng::gen_range(&mut rand::thread_rng(), 0..bound)
}

/// Template `i` is drawn for some point of `0..total_weight(ts)`.
pub open spec fn chosen(ts: Seq<CampaignTemplate>, i: int) -> bool {
    exists|p: int| 0 <= p < total_weight(ts) && #[trigger] drawn_for(ts, p, i)
}

/// The template drawn for a campaign: none when it has no templates, else
/// the template that a random point of `0..total_weight(templates)` falls
/// on (see `pick_template`).
pub fn choose_template(templates: &Vec<CampaignTemplate>) -> (r: Option<usize>)
    requires
        total_weight(templates@) <= i32::MAX,
    ensures
        r is None <==> templates@.len() == 0,
        r matches Some(i) ==> chosen(templates@, i as int),
{
    if templates.len() == 0 {
        return None;
    }
    proof {
        lemma_weight_before_grows(templates@, 0, templates@.len() as int);
    }
    let total = total_template_weight(templates);
    let point = random_below(total);
    let i = pick_template(templates, point);
    assert(0 <= point < total_weight(templates@) && drawn_for(templates@, point as int, i as int));
    Some(i)
}

/// Each point of `0..total_weight(ts)` draws one template only.
pub proof fn lemma_draw_unique(ts: Seq<CampaignTemplate>, point: int, i: int, j: int)
    requires
        drawn_for(ts, point, i),
        drawn_for(ts, point, j),
    ensures
        i == j,
{
    if i < j {
        lemma_weight_before_grows(ts, i + 1, j);
    } else if j < i {
        lemma_weight_before_grows(ts, j + 1, i);
    }
}

/// A template is drawn for exactly as many points of
/// `0..total_weight(ts)` as its draw weight: the points
/// `weight_before(ts, i)..weight_before(ts, i + 1)`, which lie in that range.
pub proof fn lemma_draw_share(ts: Seq<CampaignTemplate>, i: int)
    requires
        0 <= i < ts.len(),
    ensures
        Set::new(|p: int| drawn_for(ts, p, i)) == vstd::set_lib::set_int_range(
            weight_before(ts, i),
            weight_before(ts, i + 1),
        ),
        Set::new(|p: int| drawn_for(ts, p, i)).len() == draw_weight(ts[i].weight),
        0 <= weight_before(ts, i),
        weight_before(ts, i + 1) <= total_weight(ts),
{
    lemma_weight_before_grows(ts, 0, i);
    lemma_weight_before_grows(ts, i + 1, ts.len() as int);
    let a = Set::new(|p: int| drawn_for(ts, p, i));
    let b = vstd::set_lib::set_int_range(weight_before(ts, i), weight_before(ts, i + 1));
    assert(a =~= b);
    vstd::set_lib::lemma_int_range(weight_before(ts, i), weight_before(ts, i + 1));
}

// ------------------------------------------------------------------
// Stored contents
// ------------------------------------------------------------------

/// The registry id of Facebook.
pub const FACEBOOK_PLATFORM_ID: i32 = 3;

/// The registry id of Twitter.
pub const TWITTER_PLATFORM_ID: i32 = 5;

/// An optional 32-bit count widened to 64 bits.
pub open spec fn widen_opt(n: Option<i32>) -> Option<i64> {
    match n {
        Some(v) => Some(v as i64),
        None => None,
    }
}

fn widen(n: Option<i32>) -> (r: Option<i64>)
    ensures
        r == widen_opt(n),
{
    match n {
        Some(v) => Some(v as i64),
        None => None,
    }
}

/// The address of a stored tweet: under its screen name when the row has
/// one (even an empty one), else under the handle-free status path.
pub open spec fn stored_tweet_url(tweet_id: Seq<char>, screen_name: Option<String>) -> Seq<char> {
    match screen_name {
        Some(s) => "https://twitter.com/"@ + s@ + "/status/"@ + tweet_id,
        None => "https://twitter.com/i/web/status/"@ + tweet_id,
    }
}

/// The content of the stored tweet row `id`; `raw_data` is the row written
/// out as a document.
pub fn stored_tweet(id: i32, tweet: &TwitterTweetRecord, raw_data: serde_json::Value) -> (r: StoredContent)
    ensures
        r.id == id,
        r.platform_id == TWITTER_PLATFORM_ID,
        r.content_id == tweet.twitter_tweet_id,
        r.author_unique_id == tweet.screen_name,
        r.author_nickname == tweet.user_name,
        r.description == Some(tweet.full_text),
        r.content_url matches Some(u) && u@ == stored_tweet_url(tweet.twitter_tweet_id@, tweet.screen_name),
        r.likes == widen_opt(tweet.favorite_count),
        r.comments == widen_opt(tweet.reply_count),
        r.shares == widen_opt(tweet.retweet_count),
        r.views == widen_opt(tweet.view_count),
        r.content_created_at == tweet.created_at_ts,
        r.raw_data == Some(raw_data),
        r.campaign_id == tweet.campaign_id,
{
    let url = match &tweet.screen_name {
        Some(screen_name) => {
            let mut u = to_owned_string("https://twitter.com/");
            push_str(&mut u, screen_name.as_str());
            push_str(&mut u, "/status/");
            push_str(&mut u, tweet.twitter_tweet_id.as_str());
            u
        },
        None => {
            let mut u = to_owned_string("https://twitter.com/i/web/status/");
            push_str(&mut u, tweet.twitter_tweet_id.as_str());
            u
        },
    };
    StoredContent {
        id,
        platform_id: TWITTER_PLATFORM_ID,
        content_id: tweet.twitter_tweet_id.clone(),
        author_unique_id: copy_text(&tweet.screen_name),
        author_nickname: copy_text(&tweet.user_name),
        description: Some(tweet.full_text.clone()),
        content_url: Some(url),
        likes: widen(tweet.favorite_count),
        comments: widen(tweet.reply_count),
        shares: widen(tweet.retweet_count),
        views: widen(tweet.view_count),
        content_created_at: tweet.created_at_ts,
        raw_data: Some(raw_data),
        campaign_id: tweet.campaign_id,
    }
}

/// The content of the stored Facebook post row `id`: its message, else its
/// rich message, as description; `raw_data` is the row written out as a
/// document.
pub fn stored_facebook_post(id: i32, post: &FacebookPostRecord, raw_data: serde_json::Value) -> (r: StoredContent)
    ensures
        r.id == id,
        r.platform_id == FACEBOOK_PLATFORM_ID,
        r.content_id == post.facebook_post_id,
        r.author_unique_id == post.author_id,
        r.author_nickname == post.author_name,
        r.description == first_some(post.message, post.message_rich),
        r.content_url == post.url,
        r.likes == widen_opt(post.reactions_count),
        r.comments == widen_opt(post.comments_count),
        r.shares == widen_opt(post.reshare_count),
        r.views is None,
        r.content_created_at == post.timestamp,
        r.raw_data == Some(raw_data),
        r.campaign_id == post.campaign_id,
{
    StoredContent {
        id,
        platform_id: FACEBOOK_PLATFORM_ID,
        content_id: post.facebook_post_id.clone(),
        author_unique_id: copy_text(&post.author_id),
        author_nickname: copy_text(&post.author_name),
        description: match &post.message {
            Some(m) => Some(m.clone()),
            None => copy_text(&post.message_rich),
        },
        content_url: copy_text(&post.url),
        likes: widen(post.reactions_count),
        comments: widen(post.comments_count),
        shares: widen(post.reshare_count),
        views: None,
        content_created_at: post.timestamp,
        raw_data: Some(raw_data),
        campaign_id: post.campaign_id,
    }
}

} // verus!
