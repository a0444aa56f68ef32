//! Application configuration.

pub mod platform;
