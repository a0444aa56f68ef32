//! Decision logic of the platform adapters and of the task queue.

pub mod redis;
pub mod tikhub;
pub mod openai;
pub mod twitter;
pub mod comments;
pub mod content_pager;
pub mod multi_platform;
pub mod facebook;
pub mod instagram;
pub mod reddit;
pub mod postgres;
pub mod mock;
