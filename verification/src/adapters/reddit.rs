//! Reddit (TikHub) adapter logic: error mapping, post full names, and the
//! URL and text of a post.

use vstd::prelude::*;
use crate::adapters::tikhub::{convert_matches, convert_tikhub_error, TikHubError};
use crate::text::text_or_empty;
use crate::domain::entities::{Comment, Content, Engagement};
use crate::domain::errors::GatewayError;
use crate::pagination::opt_view;
use crate::text::{has_prefix, push_str, starts_with, to_owned_string};

verus! {

/// The full name of a post: the id with the `t3_` prefix.
pub open spec fn post_fullname(content_id: Seq<char>) -> Seq<char> {
    if has_prefix(content_id, "t3_"@) {
        content_id
    } else {
        "t3_"@ + content_id
    }
}

/// The URL of a post: its permalink on reddit.com, else the URL it links.
pub open spec fn reddit_post_url(permalink: Option<Seq<char>>, url: Option<Seq<char>>) -> Option<Seq<char>> {
    match permalink {
        Some(p) => Some("https://www.reddit.com"@ + p),
        None => url,
    }
}

/// `Some(s@)` for `Some(s)`.
pub open spec fn str_view(o: Option<&str>) -> Option<Seq<char>> {
    match o {
        Some(s) => Some(s@),
        None => None,
    }
}

/// The fields of a Reddit post (from a search or a batch lookup) that the
/// conversion reads.
#[derive(Debug, Clone)]
pub struct RedditPostFields {
    pub post_id: Option<String>,
    pub author: Option<String>,
    pub title: Option<String>,
    /// The self text.
    pub body: Option<String>,
    pub permalink: Option<String>,
    pub url: Option<String>,
    /// The score (upvotes).
    pub score: i64,
    pub comments: i64,
    /// Creation time (Unix seconds).
    pub created_at: Option<i64>,
}

/// The fields of a Reddit comment that the conversion reads.
#[derive(Debug, Clone)]
pub struct RedditCommentFields {
    pub comment_id: String,
    pub parent_id: Option<String>,
    pub author: String,
    pub body: String,
    pub score: i64,
    /// Creation time (Unix seconds).
    pub created_utc: i64,
    pub is_reply: bool,
}

fn text_of(o: &Option<String>) -> (r: String)
    ensures
        r@ == text_or_empty(*o),
{
    match o {
        Some(s) => s.clone(),
        None => String::new(),
    }
}

/// The Reddit adapter's decision logic.
pub struct RedditAdapter;

impl RedditAdapter {
    /// Maps a TikHub error to a gateway error (label "Reddit").
    pub fn convert_error(err: TikHubError) -> (r: GatewayError)
        ensures
            convert_matches("Reddit"@, err, r),
    {
        convert_tikhub_error("Reddit", err)
    }

    /// The full name (`t3_` prefixed) of a post id.
    pub fn post_fullname(content_id: &str) -> (r: String)
        ensures
            r@ == post_fullname(content_id@),
    {
        if starts_with(content_id, "t3_") {
            to_owned_string(content_id)
        } else {
            let mut r = to_owned_string("t3_");
            push_str(&mut r, content_id);
            r
        }
    }

    /// The URL of a post.
    pub fn post_url(permalink: Option<&str>, url: Option<&str>) -> (r: Option<String>)
        ensures
            match r {
                Some(s) => Some(s@),
                None => None,
            } == reddit_post_url(str_view(permalink), str_view(url)),
    {
        match permalink {
            Some(p) => {
                let mut r = to_owned_string("https://www.reddit.com");
                push_str(&mut r, p);
                Some(r)
            },
            None => match url {
                Some(u) => Some(to_owned_string(u)),
                None => None,
            },
        }
    }

    /// The text of a post: its title, a blank line, and its body.
    pub fn post_text(title: &str, body: &str) -> (r: String)
        ensures
            r@ == title@ + "\n\n"@ + body@,
    {
        let mut r = to_owned_string(title);
        push_str(&mut r, "\n\n");
        push_str(&mut r, body);
        r
    }
    /// The content of a post; `raw` is the post's own JSON document.
    pub fn convert_content(post: RedditPostFields, raw: Option<serde_json::Value>) -> (r: Content)
        ensures
            r.platform@ == "reddit"@,
            r.content_id@ == text_or_empty(post.post_id),
            r.author@ == text_or_empty(post.author),
            r.author_name == post.author,
            r.description@ == text_or_empty(post.title) + "\n\n"@ + text_or_empty(post.body),
            opt_view(r.url) == reddit_post_url(opt_view(post.permalink), opt_view(post.url)),
            r.engagement == (Engagement { likes: post.score, comments: post.comments, shares: 0, views: 0 }),
            r.created_at == post.created_at,
            r.raw_data == raw,
    {
        let title = text_of(&post.title);
        let body = text_of(&post.body);
        let url = Self::post_url(
            match &post.permalink {
                Some(p) => Some(p.as_str()),
                None => None,
            },
            match &post.url {
                Some(u) => Some(u.as_str()),
                None => None,
            },
        );
        Content {
            platform: to_owned_string("reddit"),
            content_id: text_of(&post.post_id),
            author: text_of(&post.author),
            author_name: post.author,
            description: Self::post_text(title.as_str(), body.as_str()),
            url,
            engagement: Engagement { likes: post.score, comments: post.comments, shares: 0, views: 0 },
            created_at: post.created_at,
            raw_data: raw,
        }
    }

    /// The comment of a Reddit comment under the post `content_id`; `raw` is
    /// the comment's own JSON document.
    pub fn convert_comment(comment: RedditCommentFields, content_id: &str, raw: Option<serde_json::Value>) -> (r: Comment)
        ensures
            r.platform@ == "reddit"@,
            r.comment_id == comment.comment_id,
            r.content_id@ == content_id@,
            r.parent_id == comment.parent_id,
            r.author == comment.author,
            r.author_name == Some(comment.author),
            r.author_uid is None,
            r.text == comment.body,
            r.likes == comment.score,
            r.reply_count == 0,
            r.created_at == Some(comment.created_utc),
            r.language is None,
            r.is_reply == comment.is_reply,
            r.raw_data == raw,
    {
        let name = comment.author.clone();
        Comment {
            platform: to_owned_string("reddit"),
            comment_id: comment.comment_id,
            content_id: to_owned_string(content_id),
            parent_id: comment.parent_id,
            author: comment.author,
            author_name: Some(name),
            author_uid: None,
            text: comment.body,
            likes: comment.score,
            reply_count: 0,
            created_at: Some(comment.created_utc),
            language: None,
            is_reply: comment.is_reply,
            raw_data: raw,
        }
    }
}

} // verus!
