//! Domain layer: platform-agnostic entities and errors.

pub mod errors;
pub mod extra;
pub mod entities;
