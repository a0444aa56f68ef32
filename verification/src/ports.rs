//! The records that repositories hand back: stored contents, comments and
//! analyses, campaigns and crawl tasks, and their statuses.

use vstd::prelude::*;
use crate::adapters::openai::AnalysisContext;
use crate::domain::entities::Comment;

verus! {

/// Where a stored comment stands in the analysis pipeline.
#[derive(Debug, Clone, Copy, PartialEq, Eq, Structural)]
pub enum CommentStatus {
    /// Saved, not analysed yet.
    Pending,
    /// Analysed.
    Completed,
}

/// The column value of a comment status.
pub open spec fn comment_status_code(s: CommentStatus) -> i16 {
    match s {
        CommentStatus::Pending => 0,
        CommentStatus::Completed => 1,
    }
}

impl CommentStatus {
    /// The column value of the status.
    pub fn code(self) -> (r: i16)
        ensures
            r == comment_status_code(self),
    {
        match self {
            CommentStatus::Pending => 0,
            CommentStatus::Completed => 1,
        }
    }
}

/// What saving a content gave: its row id, and whether the row is new.
#[derive(Debug, Clone, Copy, PartialEq, Eq, Structural)]
pub struct ContentSaveResult {
    pub id: i32,
    pub is_new: bool,
}

/// A content as a repository hands it back.
#[derive(Debug, Clone)]
pub struct StoredContent {
    pub id: i32,
    pub platform_id: i32,
    pub content_id: String,
    pub author_unique_id: Option<String>,
    pub author_nickname: Option<String>,
    pub description: Option<String>,
    pub content_url: Option<String>,
    pub likes: Option<i64>,
    pub comments: Option<i64>,
    pub shares: Option<i64>,
    pub views: Option<i64>,
    /// Creation time (Unix seconds).
    pub content_created_at: Option<i64>,
    pub raw_data: Option<serde_json::Value>,
    pub campaign_id: Option<i32>,
}

/// A comment as a repository hands it back.
#[derive(Debug, Clone)]
pub struct StoredComment {
    pub id: i32,
    pub platform_id: i32,
    /// Row id of the content the comment belongs to.
    pub content_id: i32,
    pub comment_id: String,
    pub parent_comment_id: Option<String>,
    pub author_uid: Option<String>,
    pub author_unique_id: Option<String>,
    pub author_nickname: Option<String>,
    pub comment_text: Option<String>,
    pub likes: Option<i64>,
    pub reply_count: Option<i32>,
    /// Creation time (Unix seconds).
    pub comment_created_at: Option<i64>,
    pub is_reply: bool,
    pub raw_data: Option<serde_json::Value>,
    /// The column value of its `CommentStatus`.
    pub status: i16,
}

/// The AI analysis stored with a comment.
#[derive(Debug, Clone)]
pub struct StoredAnalysis {
    pub id: i32,
    pub comment_id: i32,
    pub campaign_id: i32,
    pub suggested_reply: Option<String>,
    pub suggested_dm: Option<String>,
    pub suggested_reply_post: Option<String>,
    pub reason: Option<String>,
    pub tokens_used: Option<i32>,
    pub model_name: Option<String>,
}

// ------------------------------------------------------------------
// Campaigns
// ------------------------------------------------------------------

/// The lifecycle state of a campaign.
#[derive(Debug, Clone, Copy, PartialEq, Eq, Structural)]
pub enum CampaignStatus {
    Draft,
    Active,
    Paused,
    Completed,
    /// Asked to stop; running tasks finish first.
    Stopping,
}

impl CampaignStatus {
    /// Whether work on the campaign goes on: only an active campaign runs.
    pub fn should_continue(&self) -> (r: bool)
        ensures
            r == (*self == CampaignStatus::Active),
    {
        match self {
            CampaignStatus::Active => true,
            _ => false,
        }
    }
}

/// A campaign's settings and progress.
#[derive(Debug, Clone)]
pub struct CampaignConfig {
    pub id: i32,
    pub user_id: i32,
    pub name: String,
    pub platform_id: i32,
    pub status: CampaignStatus,
    pub target_audience: Option<String>,
    pub product_prompt: Option<String>,
    pub reply_strategy: Option<String>,
    pub dm_strategy: Option<String>,
    pub reply_post_strategy: Option<String>,
    /// The number of comments after which the campaign stops, if any.
    pub max_comments: Option<i32>,
    pub processed_comments: i32,
}

/// A campaign has reached its limit when it has one and has processed at
/// least that many comments.
pub open spec fn at_limit(c: CampaignConfig) -> bool {
    match c.max_comments {
        Some(m) => c.processed_comments >= m,
        None => false,
    }
}

/// Work on a campaign stops when it is not active or has reached its limit.
pub open spec fn campaign_stops(c: CampaignConfig) -> bool {
    c.status != CampaignStatus::Active || at_limit(c)
}

fn copy_text(o: &Option<String>) -> (r: Option<String>)
    ensures
        r == *o,
{
    match o {
        Some(s) => Some(s.clone()),
        None => None,
    }
}

impl CampaignConfig {
    /// Whether the campaign has processed as many comments as it may.
    pub fn is_at_limit(&self) -> (r: bool)
        ensures
            r == at_limit(*self),
    {
        match self.max_comments {
            Some(m) => self.processed_comments >= m,
            None => false,
        }
    }

    /// The settings that shape the prompts of the campaign's analyses.
    pub fn to_analysis_context(&self) -> (r: AnalysisContext)
        ensures
            r.product_prompt == self.product_prompt,
            r.target_audience == self.target_audience,
            r.reply_strategy == self.reply_strategy,
            r.dm_strategy == self.dm_strategy,
            r.reply_post_strategy == self.reply_post_strategy,
    {
        AnalysisContext {
            product_prompt: copy_text(&self.product_prompt),
            target_audience: copy_text(&self.target_audience),
            reply_strategy: copy_text(&self.reply_strategy),
            dm_strategy: copy_text(&self.dm_strategy),
            reply_post_strategy: copy_text(&self.reply_post_strategy),
        }
    }

    /// An equal copy.
    pub fn duplicate(&self) -> (r: CampaignConfig)
        ensures
            r == *self,
    {
        CampaignConfig {
            id: self.id,
            user_id: self.user_id,
            name: self.name.clone(),
            platform_id: self.platform_id,
            status: self.status,
            target_audience: copy_text(&self.target_audience),
            product_prompt: copy_text(&self.product_prompt),
            reply_strategy: copy_text(&self.reply_strategy),
            dm_strategy: copy_text(&self.dm_strategy),
            reply_post_strategy: copy_text(&self.reply_post_strategy),
            max_comments: self.max_comments,
            processed_comments: self.processed_comments,
        }
    }
}

// ------------------------------------------------------------------
// Crawl tasks
// ------------------------------------------------------------------

/// The state of a crawl task.
#[derive(Debug, Clone, Copy, PartialEq, Eq, Structural)]
pub enum TaskStatus {
    Pending,
    Running,
    Completed,
    Failed,
}

impl TaskStatus {
    /// The value the task table stores for the status (a running task is
    /// stored as `processing`).
    pub fn db_label(&self) -> (r: &'static str)
        ensures
            r@ == match *self {
                TaskStatus::Pending => "pending"@,
                TaskStatus::Running => "processing"@,
                TaskStatus::Completed => "completed"@,
                TaskStatus::Failed => "failed"@,
            },
    {
        match self {
            TaskStatus::Pending => "pending",
            TaskStatus::Running => "processing",
            TaskStatus::Completed => "completed",
            TaskStatus::Failed => "failed",
        }
    }
}

/// A crawl task.
#[derive(Debug, Clone)]
pub struct TaskInfo {
    pub id: i64,
    pub campaign_id: i32,
    pub platform_id: i32,
    pub keywords: Option<serde_json::Value>,
    pub status: TaskStatus,
    /// Progress in percent.
    pub progress: i32,
    pub error_message: Option<String>,
}

/// A task has ended when it completed or failed.
pub open spec fn task_ended(t: TaskInfo) -> bool {
    t.status == TaskStatus::Completed || t.status == TaskStatus::Failed
}

impl TaskInfo {
    /// Whether the task has ended.
    pub fn is_terminal(&self) -> (r: bool)
        ensures
            r == task_ended(*self),
    {
        match self.status {
            TaskStatus::Completed => true,
            TaskStatus::Failed => true,
            _ => false,
        }
    }
}

/// What recording progress on a task gave.
#[derive(Debug, Clone, Copy, PartialEq, Eq, Structural)]
pub struct TaskProgressUpdate {
    /// Whether the task was found.
    pub success: bool,
    /// Whether work on the task's campaign should stop.
    pub should_stop: bool,
    /// The task's progress after the update.
    pub new_process_count: i32,
}

/// What asking a campaign to stop gave.
#[derive(Debug, Clone, Copy, PartialEq, Eq, Structural)]
pub struct CampaignStopResult {
    /// Whether the campaign was found.
    pub success: bool,
    /// Whether it stopped at once (no task of it was still running).
    pub immediate_stopped: bool,
}

/// A page of comments from a comment gateway.
#[derive(Debug)]
pub struct FetchCommentsResult {
    pub comments: Vec<Comment>,
    /// Whether more comments follow.
    pub has_more: bool,
    pub next_cursor: Option<String>,
    /// The number of comments there are, when known.
    pub total: Option<i64>,
}

} // verus!
