//! The task entity model: the two closed enumerations, the task record,
//! and the request shapes used to create and partially update a task.

use vstd::prelude::*;

verus! {

/// Urgency of a task. A closed enumeration: any other value is rejected at
/// the boundary before it reaches the logic in this crate.
#[derive(Clone, Copy, Debug, PartialEq, Eq, Structural)]
pub enum TaskPriority {
    Low,
    Medium,
    High,
}

/// Lifecycle state of a task. A closed enumeration.
#[derive(Clone, Copy, Debug, PartialEq, Eq, Structural)]
pub enum TaskStatus {
    Pending,
    InProgress,
    Completed,
}

/// A single trackable work item.
///
/// `id` is assigned once at creation and never reused. `created_at` and
/// `completed_at` are clock readings in milliseconds since the epoch;
/// `created_at` is set exactly once at creation and never mutated.
/// `completed_at` carries the time the task last entered `Completed`.
#[derive(Debug)]
pub struct Task {
    pub id: u128,
    pub title: String,
    pub description: String,
    pub priority: TaskPriority,
    pub status: TaskStatus,
    pub created_at: i64,
    pub completed_at: Option<i64>,
}

impl Clone for Task {
    fn clone(&self) -> (r: Self)
        ensures
            r == *self,
    {
        Task {
            id: self.id,
            title: self.title.clone(),
            description: self.description.clone(),
            priority: self.priority,
            status: self.status,
            created_at: self.created_at,
            completed_at: self.completed_at,
        }
    }
}

/// A task is well formed when `completed_at` is populated exactly while its
/// status is `Completed`. Creation establishes this and reconciliation
/// preserves it.
pub open spec fn consistent_completion(t: Task) -> bool {
    t.completed_at is Some <==> t.status == TaskStatus::Completed
}

/// A creation request: `title`, `description` and `priority` are required,
/// `status` is optional and defaults to `Pending`.
#[derive(Clone, Debug)]
pub struct CreateTaskRequest {
    pub title: String,
    pub description: String,
    pub priority: TaskPriority,
    pub status: Option<TaskStatus>,
}

/// A partial-update request: each field is independently optional, and a
/// field left as `None` leaves the stored value unchanged. Field presence
/// is explicit because the `completed_at` rules distinguish "status not
/// mentioned" from "status set to its current value".
#[derive(Clone, Debug)]
pub struct UpdateTaskRequest {
    pub title: Option<String>,
    pub description: Option<String>,
    pub priority: Option<TaskPriority>,
    pub status: Option<TaskStatus>,
}

impl TaskPriority {
    /// The lowerCamelCase name this value carries on the wire.
    pub open spec fn wire_spec(self) -> Seq<char> {
        match self {
            TaskPriority::Low => "low"@,
            TaskPriority::Medium => "medium"@,
            TaskPriority::High => "high"@,
        }
    }

    /// The wire name of this priority.
    pub fn wire_name(self) -> (r: &'static str)
        ensures
            r@ == self.wire_spec(),
    {
        match self {
            TaskPriority::Low => "low",
            TaskPriority::Medium => "medium",
            TaskPriority::High => "high",
        }
    }
}

impl TaskStatus {
    /// The lowerCamelCase name this value carries on the wire.
    pub open spec fn wire_spec(self) -> Seq<char> {
        match self {
            TaskStatus::Pending => "pending"@,
            TaskStatus::InProgress => "inProgress"@,
            TaskStatus::Completed => "completed"@,
        }
    }

    /// The wire name of this status.
    pub fn wire_name(self) -> (r: &'static str)
        ensures
            r@ == self.wire_spec(),
    {
        match self {
            TaskStatus::Pending => "pending",
            TaskStatus::InProgress => "inProgress",
            TaskStatus::Completed => "completed",
        }
    }
}

} // verus!
