//! Mirror pipeline for a fixed catalogue of game-asset files: URL
//! resolution, task construction with validation, and the per-task
//! fallback / idempotency rules, all stated and proved here. The I/O
//! collaborators (HTTP fetch, object storage, filesystem) live outside
//! the library and are driven through the task step functions.

pub mod common;
pub mod tasks;
pub mod text;
pub mod utils;
