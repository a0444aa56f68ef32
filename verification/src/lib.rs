//! Comment-analysis agent library: domain model, platform registry,
//! pagination state machine, and the decision logic of the platform adapters.

pub mod text;
pub mod domain;
pub mod pagination;
pub mod config;
pub mod protocol;
pub mod ports;
pub mod adapters;
pub mod fixtures;
pub mod concurrency;
