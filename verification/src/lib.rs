//! A task-tracking record store.
//!
//! Tasks carry a title, description, priority, lifecycle status and
//! timestamps. The crate provides the task data model, the reconciliation
//! rules that compute a task's next persisted state from a creation or
//! partial-update request, and an in-memory repository that keeps tasks
//! ordered newest-first with unique identifiers.
//!
//! The central rule is the one governing `completed_at`: it is stamped with
//! the current time exactly when `status` transitions into `Completed`,
//! preserved across unrelated edits while the task stays `Completed`, and
//! cleared when `status` is explicitly set to a non-`Completed` value.

pub mod handlers;
pub mod models;
pub mod reconcile;
pub mod store;
