//! Instagram (TikHub) adapter logic: error mapping, the hashtag query of the
//! general search and its fallback, and the identifiers and URLs of posts.

use vstd::prelude::*;
use crate::adapters::tikhub::{convert_matches, convert_tikhub_error, TikHubError};
use crate::text::text_or_empty;
use crate::domain::entities::{Comment, Content, Engagement};
use crate::domain::errors::GatewayError;
use crate::text::{has_prefix, push_str, starts_with, to_owned_string, trim, trim_spec};

verus! {

/// The query sent to the general search: the trimmed query, with a leading
/// `#` added unless it has one.
pub open spec fn v3_query(query: Seq<char>) -> Seq<char> {
    let t = trim_spec(query);
    if has_prefix(t, "#"@) {
        t
    } else {
        "#"@ + t
    }
}

/// The post page URL for a shortcode.
pub open spec fn post_url(shortcode: Seq<char>) -> Seq<char> {
    "https://www.instagram.com/p/"@ + shortcode + "/"@
}

/// What the comment endpoints are given for a post: a URL as is, else the
/// post page URL of the shortcode.
pub open spec fn comment_target(content_id: Seq<char>) -> Seq<char> {
    if has_prefix(content_id, "http"@) {
        content_id
    } else {
        post_url(content_id)
    }
}

/// After the general search failed with an error.
#[derive(Debug)]
pub enum V3Outcome {
    /// Search again with the older endpoint and the raw query.
    FallBackToV2,
    /// Fail with this error.
    Fail(GatewayError),
}

/// The fields of an Instagram post (from a search or a profile page) that
/// the conversion reads.
#[derive(Debug, Clone)]
pub struct InstagramPostFields {
    /// The numeric media id.
    pub media_id: Option<String>,
    /// The shortcode of the post's page.
    pub shortcode: Option<String>,
    pub username: Option<String>,
    pub full_name: Option<String>,
    pub caption: String,
    pub likes: i64,
    pub comments: i64,
    pub views: i64,
    /// Creation time (Unix seconds).
    pub created_at: Option<i64>,
}

/// The fields of an Instagram comment that the conversion reads.
#[derive(Debug, Clone)]
pub struct InstagramCommentFields {
    pub id: Option<String>,
    pub parent_comment_id: Option<String>,
    pub username: Option<String>,
    pub nickname: Option<String>,
    pub user_id: Option<String>,
    pub text: String,
    pub likes: i64,
    pub reply_count: i32,
    /// Creation time (Unix seconds).
    pub created_at: Option<i64>,
    pub is_reply: bool,
}

/// The content id of a post: its shortcode when it has a non-empty one,
/// else its media id.
pub open spec fn post_content_id(media_id: Option<String>, shortcode: Option<String>) -> Seq<char> {
    if text_or_empty(shortcode).len() > 0 {
        text_or_empty(shortcode)
    } else {
        text_or_empty(media_id)
    }
}

/// The Instagram adapter's decision logic.
pub struct InstagramAdapter;

impl InstagramAdapter {
    /// Maps a TikHub error to a gateway error (label "Instagram").
    pub fn convert_error(err: TikHubError) -> (r: GatewayError)
        ensures
            convert_matches("Instagram"@, err, r),
    {
        convert_tikhub_error("Instagram", err)
    }

    /// The general-search query for a keyword.
    pub fn normalize_v3_query(query: &str) -> (r: String)
        ensures
            r@ == v3_query(query@),
    {
        let t = trim(query);
        if starts_with(t.as_str(), "#") {
            t
        } else {
            let mut r = to_owned_string("#");
            push_str(&mut r, t.as_str());
            r
        }
    }

    /// After the general search failed: a bad request falls back to the
    /// older endpoint; any other error is mapped and returned.
    pub fn after_v3_error(err: TikHubError) -> (r: V3Outcome)
        ensures
            err is BadRequest <==> r is FallBackToV2,
            r matches V3Outcome::Fail(g) ==> convert_matches("Instagram"@, err, g),
    {
        match err {
            TikHubError::BadRequest { .. } => V3Outcome::FallBackToV2,
            _ => V3Outcome::Fail(Self::convert_error(err)),
        }
    }

    /// The content id and URL of a post: the shortcode (which the comment
    /// endpoints need) and its page URL when there is one, else the media id
    /// and no URL.
    pub fn content_key(media_id: Option<&str>, shortcode: Option<&str>) -> (r: (String, Option<String>))
        ensures
            ({
                let code = match shortcode {
                    Some(c) => c@,
                    None => seq![],
                };
                if code.len() > 0 {
                    r.0@ == code && (r.1 matches Some(u) && u@ == post_url(code))
                } else {
                    r.0@ == match media_id {
                        Some(m) => m@,
                        None => seq![],
                    } && r.1 is None
                }
            }),
    {
        let code: &str = match shortcode {
            Some(c) => c,
            None => "",
        };
        proof {
            reveal_strlit("");
        }
        if !code.is_empty() {
            let mut url = to_owned_string("https://www.instagram.com/p/");
            push_str(&mut url, code);
            push_str(&mut url, "/");
            (to_owned_string(code), Some(url))
        } else {
            let id = match media_id {
                Some(m) => to_owned_string(m),
                None => String::new(),
            };
            (id, None)
        }
    }

    /// What the comment endpoints are given for a post.
    pub fn comment_target(content_id: &str) -> (r: String)
        ensures
            r@ == comment_target(content_id@),
    {
        if starts_with(content_id, "http") {
            to_owned_string(content_id)
        } else {
            let mut r = to_owned_string("https://www.instagram.com/p/");
            push_str(&mut r, content_id);
            push_str(&mut r, "/");
            r
        }
    }
    /// The content of a post, keyed by its shortcode (see `content_key`);
    /// `raw` is the post's own JSON document.
    pub fn convert_content(post: InstagramPostFields, raw: Option<serde_json::Value>) -> (r: Content)
        ensures
            r.platform@ == "instagram"@,
            r.content_id@ == post_content_id(post.media_id, post.shortcode),
            r.author@ == text_or_empty(post.username),
            r.author_name == post.full_name,
            r.description == post.caption,
            text_or_empty(post.shortcode).len() > 0 ==> (r.url matches Some(u) && u@ == post_url(
                text_or_empty(post.shortcode),
            )),
            text_or_empty(post.shortcode).len() == 0 ==> r.url is None,
            r.engagement == (Engagement { likes: post.likes, comments: post.comments, shares: 0, views: post.views }),
            r.created_at == post.created_at,
            r.raw_data == raw,
    {
        let (content_id, url) = Self::content_key(
            match &post.media_id {
                Some(m) => Some(m.as_str()),
                None => None,
            },
            match &post.shortcode {
                Some(c) => Some(c.as_str()),
                None => None,
            },
        );
        let author = match &post.username {
            Some(u) => u.clone(),
            None => String::new(),
        };
        Content {
            platform: to_owned_string("instagram"),
            content_id,
            author,
            author_name: post.full_name,
            description: post.caption,
            url,
            engagement: Engagement { likes: post.likes, comments: post.comments, shares: 0, views: post.views },
            created_at: post.created_at,
            raw_data: raw,
        }
    }

    /// The comment of an Instagram comment under the post `content_id`;
    /// `raw` is the comment's own JSON document.
    pub fn convert_comment(
        comment: InstagramCommentFields,
        content_id: &str,
        raw: Option<serde_json::Value>,
    ) -> (r: Comment)
        ensures
            r.platform@ == "instagram"@,
            r.comment_id@ == text_or_empty(comment.id),
            r.content_id@ == content_id@,
            r.parent_id == comment.parent_comment_id,
            r.author@ == text_or_empty(comment.username),
            r.author_name == comment.nickname,
            r.author_uid == comment.user_id,
            r.text == comment.text,
            r.likes == comment.likes,
            r.reply_count == comment.reply_count,
            r.created_at == comment.created_at,
            r.language is None,
            r.is_reply == comment.is_reply,
            r.raw_data == raw,
    {
        Comment {
            platform: to_owned_string("instagram"),
            comment_id: match &comment.id {
                Some(i) => i.clone(),
                None => String::new(),
            },
            content_id: to_owned_string(content_id),
            parent_id: comment.parent_comment_id,
            author: match &comment.username {
                Some(u) => u.clone(),
                None => String::new(),
            },
            author_name: comment.nickname,
            author_uid: comment.user_id,
            text: comment.text,
            likes: comment.likes,
            reply_count: comment.reply_count,
            created_at: comment.created_at,
            language: None,
            is_reply: comment.is_reply,
            raw_data: raw,
        }
    }
}

} // verus!
