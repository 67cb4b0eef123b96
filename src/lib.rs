//! Slate/content transition detection for RTP video watchers: configuration
//! model and validation, slate matching, frame classification, debounced
//! action executors and HTTP retry policy.

mod text;
pub mod urls;
pub mod models;
pub mod executor;
pub mod detector;
pub mod frames;
pub mod retry;
pub mod slate;
pub mod templates;
pub mod api;
pub mod snapshot;
