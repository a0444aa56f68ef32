//! Crawler task messages exchanged with the scheduler over the task queue.

use vstd::prelude::*;

verus! {

/// Platform ids of the task protocol.
#[derive(Debug, Clone, Copy, PartialEq, Eq)]
pub enum Platform {
    Reddit,
    Tiktok,
    Facebook,
    Instagram,
    Twitter,
    Youtube,
}

/// The numeric id of a platform.
pub open spec fn platform_number(p: Platform) -> i32 {
    match p {
        Platform::Reddit => 1,
        Platform::Tiktok => 2,
        Platform::Facebook => 3,
        Platform::Instagram => 4,
        Platform::Twitter => 5,
        Platform::Youtube => 6,
    }
}

impl Platform {
    /// The numeric id of the platform.
    pub fn id(&self) -> (r: i32)
        ensures
            r == platform_number(*self),
    {
        match self {
            Platform::Reddit => 1,
            Platform::Tiktok => 2,
            Platform::Facebook => 3,
            Platform::Instagram => 4,
            Platform::Twitter => 5,
            Platform::Youtube => 6,
        }
    }
}

/// Task metadata.
#[derive(Debug, Clone)]
pub struct CrawlerTaskMeta {
    pub task_id: i64,
    pub campaign_id: i32,
    /// Producer of the task (e.g. "scheduler").
    pub source: String,
    /// Creation time in whole Unix seconds.
    pub timestamp: i64,
}

/// What to crawl.
#[derive(Debug, Clone)]
pub struct CrawlerTaskSpec {
    /// Platform id.
    pub platform: i32,
    pub data_type: i32,
}

/// Search filters.
#[derive(Debug, Clone)]
pub struct TaskFilters {
    pub region: Option<String>,
}

/// Crawl parameters.
#[derive(Debug, Clone)]
pub struct TaskConfig {
    pub keywords: Vec<String>,
    pub max_count: i32,
    pub search_offset: i32,
    /// Requested page size (non-positive: platform default).
    pub search_limit: i32,
    pub filters: Option<TaskFilters>,
    /// Campaign search options, a JSON document keyed by platform.
    pub search_options: Option<String>,
}

/// A crawler task.
#[derive(Debug, Clone)]
pub struct CrawlerTask {
    pub meta: Option<CrawlerTaskMeta>,
    pub spec: Option<CrawlerTaskSpec>,
    pub config: Option<TaskConfig>,
}

} // verus!
