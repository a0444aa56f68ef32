//! Domain entities: platform-agnostic content, comments, reply suggestions,
//! task configuration and results.

use vstd::prelude::*;
use crate::domain::extra::{ExtraMap, ExtraValue};
use crate::pagination::FetchShortfall;
use crate::text::{parse_u64, parse_unsigned, parse_unsigned_upto, to_owned_string};

verus! {

/// JSON documents are carried through unchanged as raw platform data.
#[verifier::external_type_specification]
#[verifier::external_body]
pub struct ExJsonValue(serde_json::Value);

/// `serde_json::Value::clone`, which the crate derives: an equal copy.
#[verifier::external_body]
pub(crate) fn clone_json(v: &serde_json::Value) -> (r: serde_json::Value)
    ensures
        r == *v,
{
    v.clone()
}

/// A copy of an optional JSON document.
pub fn copy_json(o: &Option<serde_json::Value>) -> (r: Option<serde_json::Value>)
    ensures
        r == *o,
{
    match o {
        Some(v) => Some(clone_json(v)),
        None => None,
    }
}

// ------------------------------------------------------------------
// Content
// ------------------------------------------------------------------

/// Engagement metrics of a piece of content.
#[derive(Debug, Clone, Copy, PartialEq, Eq)]
pub struct Engagement {
    pub likes: i64,
    pub comments: i64,
    pub shares: i64,
    pub views: i64,
}

impl Default for Engagement {
    fn default() -> (r: Engagement)
        ensures
            r.likes == 0 && r.comments == 0 && r.shares == 0 && r.views == 0,
    {
        Engagement { likes: 0, comments: 0, shares: 0, views: 0 }
    }
}

/// Platform-agnostic content (video, post, tweet, ...).
#[derive(Debug, Clone)]
pub struct Content {
    /// Platform identifier (e.g. "tiktok").
    pub platform: String,
    /// Platform-specific content id.
    pub content_id: String,
    /// Author's username.
    pub author: String,
    /// Author's display name.
    pub author_name: Option<String>,
    /// Description or caption.
    pub description: String,
    /// URL of the content.
    pub url: Option<String>,
    pub engagement: Engagement,
    /// Creation time (Unix seconds).
    pub created_at: Option<i64>,
    /// Raw platform data.
    pub raw_data: Option<serde_json::Value>,
}

impl Content {
    /// New content with empty author and description and zero engagement.
    pub fn new(platform: &str, content_id: &str) -> (r: Content)
        ensures
            r.platform@ == platform@,
            r.content_id@ == content_id@,
            r.author@ == Seq::<char>::empty(),
            r.author_name is None,
            r.description@ == Seq::<char>::empty(),
            r.url is None,
            r.engagement == (Engagement { likes: 0, comments: 0, shares: 0, views: 0 }),
            r.created_at is None,
            r.raw_data is None,
    {
        Content {
            platform: to_owned_string(platform),
            content_id: to_owned_string(content_id),
            author: String::new(),
            author_name: None,
            description: String::new(),
            url: None,
            engagement: Engagement::default(),
            created_at: None,
            raw_data: None,
        }
    }

    /// Sets the author.
    pub fn with_author(self, author: &str) -> (r: Content)
        ensures
            r.author@ == author@,
            r == (Content { author: r.author, ..self }),
    {
        Content { author: to_owned_string(author), ..self }
    }

    /// Sets the author's display name.
    pub fn with_author_name(self, name: &str) -> (r: Content)
        ensures
            r.author_name matches Some(n) && n@ == name@,
            r == (Content { author_name: r.author_name, ..self }),
    {
        Content { author_name: Some(to_owned_string(name)), ..self }
    }

    /// Sets the description.
    pub fn with_description(self, desc: &str) -> (r: Content)
        ensures
            r.description@ == desc@,
            r == (Content { description: r.description, ..self }),
    {
        Content { description: to_owned_string(desc), ..self }
    }

    /// Sets the URL.
    pub fn with_url(self, url: &str) -> (r: Content)
        ensures
            r.url matches Some(u) && u@ == url@,
            r == (Content { url: r.url, ..self }),
    {
        Content { url: Some(to_owned_string(url)), ..self }
    }

    /// Sets the engagement metrics.
    pub fn with_engagement(self, engagement: Engagement) -> (r: Content)
        ensures
            r == (Content { engagement, ..self }),
    {
        Content { engagement, ..self }
    }

    /// Sets the creation time.
    pub fn with_created_at(self, timestamp: i64) -> (r: Content)
        ensures
            r == (Content { created_at: Some(timestamp), ..self }),
    {
        Content { created_at: Some(timestamp), ..self }
    }

    /// Sets the raw platform data.
    pub fn with_raw_data(self, data: serde_json::Value) -> (r: Content)
        ensures
            r == (Content { raw_data: Some(data), ..self }),
    {
        Content { raw_data: Some(data), ..self }
    }
}

// ------------------------------------------------------------------
// Comment
// ------------------------------------------------------------------

/// Platform-agnostic comment.
#[derive(Debug, Clone)]
pub struct Comment {
    pub platform: String,
    pub comment_id: String,
    /// Id of the content the comment belongs to.
    pub content_id: String,
    /// Parent comment id, for a reply.
    pub parent_id: Option<String>,
    pub author: String,
    pub author_name: Option<String>,
    pub author_uid: Option<String>,
    pub text: String,
    pub likes: i64,
    pub reply_count: i32,
    pub created_at: Option<i64>,
    pub language: Option<String>,
    pub is_reply: bool,
    pub raw_data: Option<serde_json::Value>,
}

impl Comment {
    /// A new top-level comment with empty author and text.
    pub fn new(platform: &str, comment_id: &str, content_id: &str) -> (r: Comment)
        ensures
            r.platform@ == platform@,
            r.comment_id@ == comment_id@,
            r.content_id@ == content_id@,
            r.parent_id is None,
            r.author@ == Seq::<char>::empty(),
            r.author_name is None,
            r.author_uid is None,
            r.text@ == Seq::<char>::empty(),
            r.likes == 0,
            r.reply_count == 0,
            r.created_at is None,
            r.language is None,
            !r.is_reply,
            r.raw_data is None,
    {
        Comment {
            platform: to_owned_string(platform),
            comment_id: to_owned_string(comment_id),
            content_id: to_owned_string(content_id),
            parent_id: None,
            author: String::new(),
            author_name: None,
            author_uid: None,
            text: String::new(),
            likes: 0,
            reply_count: 0,
            created_at: None,
            language: None,
            is_reply: false,
            raw_data: None,
        }
    }

    /// Sets the author.
    pub fn with_author(self, author: &str) -> (r: Comment)
        ensures
            r.author@ == author@,
            r == (Comment { author: r.author, ..self }),
    {
        Comment { author: to_owned_string(author), ..self }
    }

    /// Sets the author's display name.
    pub fn with_author_name(self, name: &str) -> (r: Comment)
        ensures
            r.author_name matches Some(n) && n@ == name@,
            r == (Comment { author_name: r.author_name, ..self }),
    {
        Comment { author_name: Some(to_owned_string(name)), ..self }
    }

    /// Sets the author's user id.
    pub fn with_author_uid(self, uid: &str) -> (r: Comment)
        ensures
            r.author_uid matches Some(u) && u@ == uid@,
            r == (Comment { author_uid: r.author_uid, ..self }),
    {
        Comment { author_uid: Some(to_owned_string(uid)), ..self }
    }

    /// Sets the text.
    pub fn with_text(self, text: &str) -> (r: Comment)
        ensures
            r.text@ == text@,
            r == (Comment { text: r.text, ..self }),
    {
        Comment { text: to_owned_string(text), ..self }
    }

    /// Sets the like count.
    pub fn with_likes(self, likes: i64) -> (r: Comment)
        ensures
            r == (Comment { likes, ..self }),
    {
        Comment { likes, ..self }
    }

    /// Sets the reply count.
    pub fn with_reply_count(self, count: i32) -> (r: Comment)
        ensures
            r == (Comment { reply_count: count, ..self }),
    {
        Comment { reply_count: count, ..self }
    }

    /// Marks the comment as a reply to `parent_id`.
    pub fn as_reply_to(self, parent_id: &str) -> (r: Comment)
        ensures
            r.parent_id matches Some(p) && p@ == parent_id@,
            r.is_reply,
            r == (Comment { parent_id: r.parent_id, is_reply: true, ..self }),
    {
        Comment { parent_id: Some(to_owned_string(parent_id)), is_reply: true, ..self }
    }

    /// Sets the creation time.
    pub fn with_created_at(self, timestamp: i64) -> (r: Comment)
        ensures
            r == (Comment { created_at: Some(timestamp), ..self }),
    {
        Comment { created_at: Some(timestamp), ..self }
    }

    /// Sets the language.
    pub fn with_language(self, lang: &str) -> (r: Comment)
        ensures
            r.language matches Some(l) && l@ == lang@,
            r == (Comment { language: r.language, ..self }),
    {
        Comment { language: Some(to_owned_string(lang)), ..self }
    }

    /// Sets the raw platform data.
    pub fn with_raw_data(self, data: serde_json::Value) -> (r: Comment)
        ensures
            r == (Comment { raw_data: Some(data), ..self }),
    {
        Comment { raw_data: Some(data), ..self }
    }
}

// ------------------------------------------------------------------
// Reply suggestion
// ------------------------------------------------------------------

/// Comment intent classification.
#[derive(Debug, Clone, Copy, PartialEq, Eq, Structural)]
pub enum CommentIntent {
    Question,
    PurchaseIntent,
    InformationRequest,
    Feedback,
    Complaint,
    Praise,
    Chitchat,
    Spam,
    Unknown,
}

impl Default for CommentIntent {
    fn default() -> (r: CommentIntent)
        ensures
            r == CommentIntent::Unknown,
    {
        CommentIntent::Unknown
    }
}

/// Sentiment of a comment.
#[derive(Debug, Clone, Copy, PartialEq, Eq, Structural)]
pub enum Sentiment {
    Positive,
    Negative,
    Neutral,
}

impl Default for Sentiment {
    fn default() -> (r: Sentiment)
        ensures
            r == Sentiment::Neutral,
    {
        Sentiment::Neutral
    }
}

/// AI-generated reply suggestion for a comment.
#[derive(Debug, Clone)]
pub struct ReplySuggestion {
    pub comment_id: String,
    pub reply_text: Option<String>,
    pub dm_text: Option<String>,
    pub post_reply_text: Option<String>,
    pub reason: Option<String>,
    pub intent: Option<CommentIntent>,
    pub sentiment: Option<Sentiment>,
    pub tokens_used: Option<i32>,
    pub model: Option<String>,
}

fn copy_opt_text(o: &Option<String>) -> (r: Option<String>)
    ensures
        r == *o,
{
    match o {
        Some(s) => Some(s.clone()),
        None => None,
    }
}

impl ReplySuggestion {
    /// An equal copy.
    pub fn duplicate(&self) -> (r: ReplySuggestion)
        ensures
            r == *self,
    {
        ReplySuggestion {
            comment_id: self.comment_id.clone(),
            reply_text: copy_opt_text(&self.reply_text),
            dm_text: copy_opt_text(&self.dm_text),
            post_reply_text: copy_opt_text(&self.post_reply_text),
            reason: copy_opt_text(&self.reason),
            intent: self.intent,
            sentiment: self.sentiment,
            tokens_used: self.tokens_used,
            model: copy_opt_text(&self.model),
        }
    }

    /// An empty suggestion for a comment.
    pub fn new(comment_id: &str) -> (r: ReplySuggestion)
        ensures
            r.comment_id@ == comment_id@,
            r.reply_text is None,
            r.dm_text is None,
            r.post_reply_text is None,
            r.reason is None,
            r.intent is None,
            r.sentiment is None,
            r.tokens_used is None,
            r.model is None,
    {
        ReplySuggestion {
            comment_id: to_owned_string(comment_id),
            reply_text: None,
            dm_text: None,
            post_reply_text: None,
            reason: None,
            intent: None,
            sentiment: None,
            tokens_used: None,
            model: None,
        }
    }

    /// Sets the suggested reply.
    pub fn with_reply(self, text: &str) -> (r: ReplySuggestion)
        ensures
            r.reply_text matches Some(t) && t@ == text@,
            r == (ReplySuggestion { reply_text: r.reply_text, ..self }),
    {
        ReplySuggestion { reply_text: Some(to_owned_string(text)), ..self }
    }

    /// Sets the suggested direct message.
    pub fn with_dm(self, text: &str) -> (r: ReplySuggestion)
        ensures
            r.dm_text matches Some(t) && t@ == text@,
            r == (ReplySuggestion { dm_text: r.dm_text, ..self }),
    {
        ReplySuggestion { dm_text: Some(to_owned_string(text)), ..self }
    }

    /// Sets the suggested post reply.
    pub fn with_post_reply(self, text: &str) -> (r: ReplySuggestion)
        ensures
            r.post_reply_text matches Some(t) && t@ == text@,
            r == (ReplySuggestion { post_reply_text: r.post_reply_text, ..self }),
    {
        ReplySuggestion { post_reply_text: Some(to_owned_string(text)), ..self }
    }

    /// Sets the reason.
    pub fn with_reason(self, reason: &str) -> (r: ReplySuggestion)
        ensures
            r.reason matches Some(t) && t@ == reason@,
            r == (ReplySuggestion { reason: r.reason, ..self }),
    {
        ReplySuggestion { reason: Some(to_owned_string(reason)), ..self }
    }

    /// Sets the intent.
    pub fn with_intent(self, intent: CommentIntent) -> (r: ReplySuggestion)
        ensures
            r == (ReplySuggestion { intent: Some(intent), ..self }),
    {
        ReplySuggestion { intent: Some(intent), ..self }
    }

    /// Sets the sentiment.
    pub fn with_sentiment(self, sentiment: Sentiment) -> (r: ReplySuggestion)
        ensures
            r == (ReplySuggestion { sentiment: Some(sentiment), ..self }),
    {
        ReplySuggestion { sentiment: Some(sentiment), ..self }
    }

    /// Sets the model name and the tokens used.
    pub fn with_model_info(self, model: &str, tokens: i32) -> (r: ReplySuggestion)
        ensures
            r.model matches Some(m) && m@ == model@,
            r == (ReplySuggestion { model: r.model, tokens_used: Some(tokens), ..self }),
    {
        ReplySuggestion { model: Some(to_owned_string(model)), tokens_used: Some(tokens), ..self }
    }
}

// ------------------------------------------------------------------
// Concurrency configuration
// ------------------------------------------------------------------

pub const DEFAULT_MAX_CONCURRENT_TASKS: usize = 5;

pub const DEFAULT_MAX_CONCURRENT_VIDEOS: usize = 5;

pub const DEFAULT_AI_CONCURRENCY: usize = 20;

pub const DEFAULT_TIKHUB_CONCURRENCY: usize = 3;

pub const DEFAULT_AI_MIN_INTERVAL_MS: u64 = 50;

/// Concurrency limits for task processing.
#[derive(Debug, Clone, Copy, PartialEq, Eq)]
pub struct ConcurrencyConfig {
    /// Tasks processed at once (default 5).
    pub max_concurrent_tasks: usize,
    /// Videos processed at once per task (default 5).
    pub max_concurrent_videos: usize,
    /// Concurrent AI calls (default 20).
    pub ai_concurrency: usize,
    /// Concurrent TikHub calls (default 3).
    pub tikhub_concurrency: usize,
    /// Minimum milliseconds between AI calls (default 50).
    pub ai_min_interval_ms: u64,
}

impl Default for ConcurrencyConfig {
    fn default() -> (r: ConcurrencyConfig)
        ensures
            r == (ConcurrencyConfig {
                max_concurrent_tasks: DEFAULT_MAX_CONCURRENT_TASKS,
                max_concurrent_videos: DEFAULT_MAX_CONCURRENT_VIDEOS,
                ai_concurrency: DEFAULT_AI_CONCURRENCY,
                tikhub_concurrency: DEFAULT_TIKHUB_CONCURRENCY,
                ai_min_interval_ms: DEFAULT_AI_MIN_INTERVAL_MS,
            }),
    {
        ConcurrencyConfig {
            max_concurrent_tasks: DEFAULT_MAX_CONCURRENT_TASKS,
            max_concurrent_videos: DEFAULT_MAX_CONCURRENT_VIDEOS,
            ai_concurrency: DEFAULT_AI_CONCURRENCY,
            tikhub_concurrency: DEFAULT_TIKHUB_CONCURRENCY,
            ai_min_interval_ms: DEFAULT_AI_MIN_INTERVAL_MS,
        }
    }
}

/// A setting read from the environment: the parsed value when the variable
/// is set and parses as an unsigned integer in range, else the default.
pub open spec fn env_setting(value: Option<Seq<char>>, default: nat, max: nat) -> nat {
    match value {
        Some(s) => match parse_unsigned(s) {
            Some(x) => if x <= max {
                x
            } else {
                default
            },
            None => default,
        },
        None => default,
    }
}

/// `Some(s@)` for `Some(s)`.
pub open spec fn env_view(o: Option<&str>) -> Option<Seq<char>> {
    match o {
        Some(s) => Some(s@),
        None => None,
    }
}

fn usize_setting(value: Option<&str>, default: usize) -> (r: usize)
    ensures
        r == env_setting(env_view(value), default as nat, usize::MAX as nat),
{
    match value {
        Some(s) => match parse_unsigned_upto(s, usize::MAX as u64) {
            Some(x) => x as usize,
            None => default,
        },
        None => default,
    }
}

fn u64_setting(value: Option<&str>, default: u64) -> (r: u64)
    ensures
        r == env_setting(env_view(value), default as nat, u64::MAX as nat),
{
    match value {
        Some(s) => match parse_u64(s) {
            Some(x) => x,
            None => default,
        },
        None => default,
    }
}

impl ConcurrencyConfig {
    /// The configuration from the values of `AGENT_MAX_CONCURRENT_TASKS`,
    /// `AGENT_MAX_CONCURRENT_VIDEOS`, `AGENT_AI_CONCURRENCY`,
    /// `AGENT_TIKHUB_CONCURRENCY` and `AGENT_AI_MIN_INTERVAL_MS`: each set
    /// and valid value replaces its default.
    pub fn from_env(
        max_concurrent_tasks: Option<&str>,
        max_concurrent_videos: Option<&str>,
        ai_concurrency: Option<&str>,
        tikhub_concurrency: Option<&str>,
        ai_min_interval_ms: Option<&str>,
    ) -> (r: ConcurrencyConfig)
        ensures
            r.max_concurrent_tasks == env_setting(env_view(max_concurrent_tasks), DEFAULT_MAX_CONCURRENT_TASKS as nat, usize::MAX as nat),
            r.max_concurrent_videos == env_setting(env_view(max_concurrent_videos), DEFAULT_MAX_CONCURRENT_VIDEOS as nat, usize::MAX as nat),
            r.ai_concurrency == env_setting(env_view(ai_concurrency), DEFAULT_AI_CONCURRENCY as nat, usize::MAX as nat),
            r.tikhub_concurrency == env_setting(env_view(tikhub_concurrency), DEFAULT_TIKHUB_CONCURRENCY as nat, usize::MAX as nat),
            r.ai_min_interval_ms == env_setting(env_view(ai_min_interval_ms), DEFAULT_AI_MIN_INTERVAL_MS as nat, u64::MAX as nat),
    {
        ConcurrencyConfig {
            max_concurrent_tasks: usize_setting(max_concurrent_tasks, DEFAULT_MAX_CONCURRENT_TASKS),
            max_concurrent_videos: usize_setting(max_concurrent_videos, DEFAULT_MAX_CONCURRENT_VIDEOS),
            ai_concurrency: usize_setting(ai_concurrency, DEFAULT_AI_CONCURRENCY),
            tikhub_concurrency: usize_setting(tikhub_concurrency, DEFAULT_TIKHUB_CONCURRENCY),
            ai_min_interval_ms: u64_setting(ai_min_interval_ms, DEFAULT_AI_MIN_INTERVAL_MS),
        }
    }

    /// Custom task, video and AI limits; the TikHub limit and the AI interval
    /// keep their defaults.
    pub fn new(max_concurrent_tasks: usize, max_concurrent_videos: usize, ai_concurrency: usize) -> (r: ConcurrencyConfig)
        ensures
            r == (ConcurrencyConfig {
                max_concurrent_tasks,
                max_concurrent_videos,
                ai_concurrency,
                tikhub_concurrency: DEFAULT_TIKHUB_CONCURRENCY,
                ai_min_interval_ms: DEFAULT_AI_MIN_INTERVAL_MS,
            }),
    {
        ConcurrencyConfig {
            max_concurrent_tasks,
            max_concurrent_videos,
            ai_concurrency,
            tikhub_concurrency: DEFAULT_TIKHUB_CONCURRENCY,
            ai_min_interval_ms: DEFAULT_AI_MIN_INTERVAL_MS,
        }
    }

    /// Sets the task limit.
    pub fn with_max_concurrent_tasks(self, n: usize) -> (r: ConcurrencyConfig)
        ensures
            r == (ConcurrencyConfig { max_concurrent_tasks: n, ..self }),
    {
        ConcurrencyConfig { max_concurrent_tasks: n, ..self }
    }

    /// Sets the video limit.
    pub fn with_max_concurrent_videos(self, n: usize) -> (r: ConcurrencyConfig)
        ensures
            r == (ConcurrencyConfig { max_concurrent_videos: n, ..self }),
    {
        ConcurrencyConfig { max_concurrent_videos: n, ..self }
    }

    /// Sets the AI call limit.
    pub fn with_ai_concurrency(self, n: usize) -> (r: ConcurrencyConfig)
        ensures
            r == (ConcurrencyConfig { ai_concurrency: n, ..self }),
    {
        ConcurrencyConfig { ai_concurrency: n, ..self }
    }

    /// Sets the TikHub call limit.
    pub fn with_tikhub_concurrency(self, n: usize) -> (r: ConcurrencyConfig)
        ensures
            r == (ConcurrencyConfig { tikhub_concurrency: n, ..self }),
    {
        ConcurrencyConfig { tikhub_concurrency: n, ..self }
    }

    /// Sets the minimum AI call interval.
    pub fn with_ai_min_interval_ms(self, ms: u64) -> (r: ConcurrencyConfig)
        ensures
            r == (ConcurrencyConfig { ai_min_interval_ms: ms, ..self }),
    {
        ConcurrencyConfig { ai_min_interval_ms: ms, ..self }
    }
}

// ------------------------------------------------------------------
// Task configuration
// ------------------------------------------------------------------

/// Configuration of a crawl-and-analyze task.
#[derive(Debug, Clone)]
pub struct TaskConfig {
    pub campaign_id: i32,
    pub platform: String,
    pub keywords: Vec<String>,
    pub region: Option<String>,
    pub max_videos: Option<i32>,
    pub max_comments_per_video: Option<i32>,
    /// Sort type (TikTok: 0 relevance, 1 most liked).
    pub sort_type: Option<u8>,
    /// Publish time filter in days (TikTok: 0 all, 1, 7, 30, 90, 180).
    pub publish_time: Option<u8>,
    /// Requested page size, already clamped to the platform's page cap.
    pub page_size_hint: Option<u32>,
    pub product_prompt: Option<String>,
    pub target_audience: Option<String>,
    pub reply_strategy: Option<String>,
    pub dm_strategy: Option<String>,
    /// Task-level concurrency (global defaults when absent).
    pub concurrency: Option<ConcurrencyConfig>,
    /// Platform-specific options.
    pub extra: ExtraMap,
}

impl TaskConfig {
    /// A configuration with no keyword and no option set.
    pub fn new(campaign_id: i32, platform: &str) -> (r: TaskConfig)
        ensures
            r.campaign_id == campaign_id,
            r.platform@ == platform@,
            r.keywords@.len() == 0,
            r.region is None,
            r.max_videos is None,
            r.max_comments_per_video is None,
            r.sort_type is None,
            r.publish_time is None,
            r.page_size_hint is None,
            r.product_prompt is None,
            r.target_audience is None,
            r.reply_strategy is None,
            r.dm_strategy is None,
            r.concurrency is None,
            forall|k: Seq<char>| r.extra.spec_get(k) is None,
    {
        TaskConfig {
            campaign_id,
            platform: to_owned_string(platform),
            keywords: Vec::new(),
            region: None,
            max_videos: None,
            max_comments_per_video: None,
            sort_type: None,
            publish_time: None,
            page_size_hint: None,
            product_prompt: None,
            target_audience: None,
            reply_strategy: None,
            dm_strategy: None,
            concurrency: None,
            extra: ExtraMap::new(),
        }
    }

    /// The task's concurrency, or the defaults.
    pub fn effective_concurrency(&self) -> (r: ConcurrencyConfig)
        ensures
            match self.concurrency {
                Some(c) => r == c,
                None => r == (ConcurrencyConfig {
                    max_concurrent_tasks: DEFAULT_MAX_CONCURRENT_TASKS,
                    max_concurrent_videos: DEFAULT_MAX_CONCURRENT_VIDEOS,
                    ai_concurrency: DEFAULT_AI_CONCURRENCY,
                    tikhub_concurrency: DEFAULT_TIKHUB_CONCURRENCY,
                    ai_min_interval_ms: DEFAULT_AI_MIN_INTERVAL_MS,
                }),
            },
    {
        match self.concurrency {
            Some(c) => c,
            None => ConcurrencyConfig::default(),
        }
    }

    /// Sets the concurrency.
    pub fn with_concurrency(self, config: ConcurrencyConfig) -> (r: TaskConfig)
        ensures
            r == (TaskConfig { concurrency: Some(config), ..self }),
    {
        TaskConfig { concurrency: Some(config), ..self }
    }

    /// Appends a keyword.
    pub fn add_keyword(self, keyword: &str) -> (r: TaskConfig)
        ensures
            r.keywords@.len() == self.keywords@.len() + 1,
            r.keywords@.take(self.keywords@.len() as int) == self.keywords@,
            r.keywords@.last()@ == keyword@,
            r == (TaskConfig { keywords: r.keywords, ..self }),
    {
        let mut s = self;
        s.keywords.push(to_owned_string(keyword));
        proof {
            assert(s.keywords@.take(self.keywords@.len() as int) =~= self.keywords@);
        }
        s
    }

    /// Sets the keywords.
    pub fn with_keywords(self, keywords: Vec<String>) -> (r: TaskConfig)
        ensures
            r == (TaskConfig { keywords, ..self }),
    {
        TaskConfig { keywords, ..self }
    }

    /// Sets the region.
    pub fn with_region(self, region: &str) -> (r: TaskConfig)
        ensures
            r.region matches Some(x) && x@ == region@,
            r == (TaskConfig { region: r.region, ..self }),
    {
        TaskConfig { region: Some(to_owned_string(region)), ..self }
    }

    /// Sets the maximum number of videos.
    pub fn with_max_videos(self, max: i32) -> (r: TaskConfig)
        ensures
            r == (TaskConfig { max_videos: Some(max), ..self }),
    {
        TaskConfig { max_videos: Some(max), ..self }
    }

    /// Sets the maximum number of comments per video.
    pub fn with_max_comments_per_video(self, max: i32) -> (r: TaskConfig)
        ensures
            r == (TaskConfig { max_comments_per_video: Some(max), ..self }),
    {
        TaskConfig { max_comments_per_video: Some(max), ..self }
    }

    /// Sets the sort type.
    pub fn with_sort_type(self, sort_type: u8) -> (r: TaskConfig)
        ensures
            r == (TaskConfig { sort_type: Some(sort_type), ..self }),
    {
        TaskConfig { sort_type: Some(sort_type), ..self }
    }

    /// Sets the publish time filter.
    pub fn with_publish_time(self, publish_time: u8) -> (r: TaskConfig)
        ensures
            r == (TaskConfig { publish_time: Some(publish_time), ..self }),
    {
        TaskConfig { publish_time: Some(publish_time), ..self }
    }
}

// ------------------------------------------------------------------
// Task result
// ------------------------------------------------------------------

/// Result of processing a task.
#[derive(Debug, Clone)]
pub struct TaskResult {
    pub task_id: i64,
    pub success: bool,
    pub contents_processed: i32,
    pub comments_processed: i32,
    pub analyses_generated: i32,
    pub error: Option<String>,
    pub duration_ms: Option<u64>,
}

impl TaskResult {
    /// A successful result with zero counts.
    pub fn success(task_id: i64) -> (r: TaskResult)
        ensures
            r == (TaskResult {
                task_id,
                success: true,
                contents_processed: 0,
                comments_processed: 0,
                analyses_generated: 0,
                error: None,
                duration_ms: None,
            }),
    {
        TaskResult {
            task_id,
            success: true,
            contents_processed: 0,
            comments_processed: 0,
            analyses_generated: 0,
            error: None,
            duration_ms: None,
        }
    }

    /// A failed result carrying the error message.
    pub fn failure(task_id: i64, error: &str) -> (r: TaskResult)
        ensures
            r.task_id == task_id,
            !r.success,
            r.contents_processed == 0,
            r.comments_processed == 0,
            r.analyses_generated == 0,
            r.error matches Some(e) && e@ == error@,
            r.duration_ms is None,
    {
        TaskResult {
            task_id,
            success: false,
            contents_processed: 0,
            comments_processed: 0,
            analyses_generated: 0,
            error: Some(to_owned_string(error)),
            duration_ms: None,
        }
    }

    /// Sets the processed counts.
    pub fn with_counts(self, contents: i32, comments: i32, analyses: i32) -> (r: TaskResult)
        ensures
            r == (TaskResult {
                contents_processed: contents,
                comments_processed: comments,
                analyses_generated: analyses,
                ..self
            }),
    {
        TaskResult {
            contents_processed: contents,
            comments_processed: comments,
            analyses_generated: analyses,
            ..self
        }
    }

    /// Sets the duration.
    pub fn with_duration(self, ms: u64) -> (r: TaskResult)
        ensures
            r == (TaskResult { duration_ms: Some(ms), ..self }),
    {
        TaskResult { duration_ms: Some(ms), ..self }
    }
}

// ------------------------------------------------------------------
// Search options
// ------------------------------------------------------------------

/// Options of a content search.
#[derive(Debug, Clone)]
pub struct SearchOptions {
    pub query: String,
    /// Platform name (e.g. "tiktok").
    pub platform: Option<String>,
    pub region: Option<String>,
    /// Number of results wanted.
    pub count: u32,
    /// Pagination offset.
    pub offset: u32,
    pub sort_type: Option<u8>,
    pub publish_time: Option<u8>,
    /// Platform-specific options.
    pub extra: ExtraMap,
}

impl SearchOptions {
    /// Options for `query`: ten results from the start, nothing else set.
    pub fn new(query: &str) -> (r: SearchOptions)
        ensures
            r.query@ == query@,
            r.platform is None,
            r.region is None,
            r.count == 10,
            r.offset == 0,
            r.sort_type is None,
            r.publish_time is None,
            forall|k: Seq<char>| r.extra.spec_get(k) is None,
    {
        SearchOptions {
            query: to_owned_string(query),
            platform: None,
            region: None,
            count: 10,
            offset: 0,
            sort_type: None,
            publish_time: None,
            extra: ExtraMap::new(),
        }
    }

    /// Sets the platform.
    pub fn with_platform(self, platform: &str) -> (r: SearchOptions)
        ensures
            r.platform matches Some(p) && p@ == platform@,
            r == (SearchOptions { platform: r.platform, ..self }),
    {
        SearchOptions { platform: Some(to_owned_string(platform)), ..self }
    }

    /// Sets the region.
    pub fn with_region(self, region: &str) -> (r: SearchOptions)
        ensures
            r.region matches Some(x) && x@ == region@,
            r == (SearchOptions { region: r.region, ..self }),
    {
        SearchOptions { region: Some(to_owned_string(region)), ..self }
    }

    /// Sets the count.
    pub fn with_count(self, count: u32) -> (r: SearchOptions)
        ensures
            r == (SearchOptions { count, ..self }),
    {
        SearchOptions { count, ..self }
    }

    /// Sets the offset.
    pub fn with_offset(self, offset: u32) -> (r: SearchOptions)
        ensures
            r == (SearchOptions { offset, ..self }),
    {
        SearchOptions { offset, ..self }
    }

    /// Binds one extra option.
    pub fn with_extra_value(self, key: &str, value: ExtraValue) -> (r: SearchOptions)
        ensures
            r.extra.spec_get(key@) == Some(value@),
            forall|k: Seq<char>| k != key@ ==> r.extra.spec_get(k) == self.extra.spec_get(k),
            r == (SearchOptions { extra: r.extra, ..self }),
    {
        let mut s = self;
        s.extra.insert(to_owned_string(key), value);
        s
    }

    /// Binds every extra option of `extra`, which take precedence.
    pub fn with_extra(self, extra: &ExtraMap) -> (r: SearchOptions)
        ensures
            forall|k: Seq<char>|
                #![trigger r.extra.spec_get(k)]
                r.extra.spec_get(k) == (match extra.spec_get(k) {
                    Some(v) => Some(v),
                    None => self.extra.spec_get(k),
                }),
            r == (SearchOptions { extra: r.extra, ..self }),
    {
        let mut s = self;
        s.extra.extend(extra);
        s
    }

    /// A copy with another query.
    pub fn with_query(&self, query: &str) -> (r: SearchOptions)
        ensures
            r.query@ == query@,
            r.platform == self.platform,
            r.region == self.region,
            r.count == self.count,
            r.offset == self.offset,
            r.sort_type == self.sort_type,
            r.publish_time == self.publish_time,
            forall|k: Seq<char>| #![trigger r.extra.spec_get(k)] r.extra.spec_get(k) == self.extra.spec_get(k),
    {
        let mut extra = ExtraMap::new();
        extra.extend(&self.extra);
        SearchOptions {
            query: to_owned_string(query),
            platform: self.platform.clone(),
            region: self.region.clone(),
            count: self.count,
            offset: self.offset,
            sort_type: self.sort_type,
            publish_time: self.publish_time,
            extra,
        }
    }
}

// ------------------------------------------------------------------
// Keyword type and fetch outcome
// ------------------------------------------------------------------

/// Parsed keyword type for platform-specific handling.
#[derive(Debug, Clone, PartialEq, Eq)]
pub enum KeywordType {
    /// Regular search keyword.
    Search(String),
    /// User's unique id (e.g. @username).
    UserId(String),
    /// User's secure id (platform-specific).
    SecUserId(String),
    /// Direct content id.
    ContentId(String),
    /// Hashtag search.
    Hashtag(String),
}

/// The raw value of a keyword.
pub open spec fn keyword_value(k: KeywordType) -> Seq<char> {
    match k {
        KeywordType::Search(v) => v@,
        KeywordType::UserId(v) => v@,
        KeywordType::SecUserId(v) => v@,
        KeywordType::ContentId(v) => v@,
        KeywordType::Hashtag(v) => v@,
    }
}

impl KeywordType {
    /// The raw value.
    pub fn value(&self) -> (r: &str)
        ensures
            r@ == keyword_value(*self),
    {
        match self {
            KeywordType::Search(v) => v.as_str(),
            KeywordType::UserId(v) => v.as_str(),
            KeywordType::SecUserId(v) => v.as_str(),
            KeywordType::ContentId(v) => v.as_str(),
            KeywordType::Hashtag(v) => v.as_str(),
        }
    }

    /// Whether the keyword names a user.
    pub fn is_user_based(&self) -> (r: bool)
        ensures
            r == (*self is UserId || *self is SecUserId),
    {
        match self {
            KeywordType::UserId(_) | KeywordType::SecUserId(_) => true,
            _ => false,
        }
    }

    /// Whether the keyword names a piece of content.
    pub fn is_content_based(&self) -> (r: bool)
        ensures
            r == (*self is ContentId),
    {
        match self {
            KeywordType::ContentId(_) => true,
            _ => false,
        }
    }
}

/// Contents delivered by a fetch, and why fewer than requested if so.
#[derive(Debug)]
pub struct FetchOutcome {
    pub contents: Vec<Content>,
    pub shortfall: Option<FetchShortfall>,
}

} // verus!
