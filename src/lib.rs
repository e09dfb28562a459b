//! Watches a Rust project, re-runs its test suite when relevant files change,
//! classifies the outcome of each run from the captured output, and describes
//! the notification that reports it.
pub mod classify;
pub mod notifier;
pub mod outcome;
pub mod paths;
pub mod reactor;
