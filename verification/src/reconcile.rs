//! The reconciliation engine: pure rules computing a task's next persisted
//! state from a creation request, or from the currently stored task and a
//! partial-update request. No I/O; the caller supplies the identifier and
//! the clock reading.

use vstd::prelude::*;

use crate::models::CreateTaskRequest;
use crate::models::Task;
use crate::models::TaskStatus;
use crate::models::UpdateTaskRequest;
use crate::models::consistent_completion;

verus! {

/// The status a creation request asks for: the requested status if present,
/// else `Pending`.
pub open spec fn effective_create_status(req: CreateTaskRequest) -> TaskStatus {
    match req.status {
        Some(s) => s,
        None => TaskStatus::Pending,
    }
}

/// The task a creation request yields, given the assigned identifier and
/// the creation time: `completed_at` is stamped with the creation time
/// exactly when the effective status is `Completed`.
pub open spec fn created_task(req: CreateTaskRequest, id: u128, now: i64) -> Task {
    Task {
        id,
        title: req.title,
        description: req.description,
        priority: req.priority,
        status: effective_create_status(req),
        created_at: now,
        completed_at: if effective_create_status(req) == TaskStatus::Completed {
            Some(now)
        } else {
            None
        },
    }
}

/// The status a merged task ends with: the requested status if present,
/// else the stored one.
pub open spec fn merged_status(existing: Task, req: UpdateTaskRequest) -> TaskStatus {
    match req.status {
        Some(s) => s,
        None => existing.status,
    }
}

/// The `completed_at` a merged task ends with. Stamped with the update time
/// exactly when the task enters `Completed` (or re-enters it with no stamp
/// on record); preserved when an already-`Completed` task is re-affirmed or
/// left untouched; cleared when the request explicitly sets a
/// non-`Completed` status.
pub open spec fn merged_completed_at(existing: Task, req: UpdateTaskRequest, now: i64) -> Option<
    i64,
> {
    if merged_status(existing, req) == TaskStatus::Completed {
        if existing.status != TaskStatus::Completed || existing.completed_at is None {
            Some(now)
        } else {
            existing.completed_at
        }
    } else if req.status is Some {
        None
    } else {
        existing.completed_at
    }
}

/// The task a partial update yields: each of `title`, `description`,
/// `priority` taken from the request where present, `status` and
/// `completed_at` per the rules above, `id` and `created_at` unchanged.
pub open spec fn merged_task(existing: Task, req: UpdateTaskRequest, now: i64) -> Task {
    Task {
        id: existing.id,
        title: match req.title {
            Some(t) => t,
            None => existing.title,
        },
        description: match req.description {
            Some(d) => d,
            None => existing.description,
        },
        priority: match req.priority {
            Some(p) => p,
            None => existing.priority,
        },
        status: merged_status(existing, req),
        created_at: existing.created_at,
        completed_at: merged_completed_at(existing, req, now),
    }
}

/// Computes the task a creation request yields, with `id` and the creation
/// time `now` assigned by the caller.
pub fn for_create(req: &CreateTaskRequest, id: u128, now: i64) -> (t: Task)
    ensures
        t == created_task(*req, id, now),
{
    let status = match req.status {
        Some(s) => s,
        None => TaskStatus::Pending,
    };
    let completed_at = if status == TaskStatus::Completed {
        Some(now)
    } else {
        None
    };
    Task {
        id,
        title: req.title.clone(),
        description: req.description.clone(),
        priority: req.priority,
        status,
        created_at: now,
        completed_at,
    }
}

/// Computes the merged task a partial update yields, with the update time
/// `now` assigned by the caller.
pub fn for_update(existing: &Task, req: &UpdateTaskRequest, now: i64) -> (t: Task)
    ensures
        t == merged_task(*existing, *req, now),
{
    let status_was_set = req.status.is_some();
    let status = match req.status {
        Some(s) => s,
        None => existing.status,
    };
    let completed_at = if status == TaskStatus::Completed {
        if !(existing.status == TaskStatus::Completed) || existing.completed_at.is_none() {
            Some(now)
        } else {
            existing.completed_at
        }
    } else if status_was_set {
        None
    } else {
        existing.completed_at
    };
    let title = match &req.title {
        Some(t) => t.clone(),
        None => existing.title.clone(),
    };
    let description = match &req.description {
        Some(d) => d.clone(),
        None => existing.description.clone(),
    };
    let priority = match req.priority {
        Some(p) => p,
        None => existing.priority,
    };
    Task {
        id: existing.id,
        title,
        description,
        priority,
        status,
        created_at: existing.created_at,
        completed_at,
    }
}

/// A creation request with no status yields a `Pending` task with no
/// completion stamp.
pub proof fn lemma_create_defaults_to_pending(req: CreateTaskRequest, id: u128, now: i64)
    requires
        req.status is None,
    ensures
        created_task(req, id, now).status == TaskStatus::Pending,
        created_task(req, id, now).completed_at is None,
{
}

/// A creation request asking for `Completed` yields a task whose completion
/// stamp is exactly the creation time.
pub proof fn lemma_create_completed_stamps_now(req: CreateTaskRequest, id: u128, now: i64)
    requires
        req.status == Some(TaskStatus::Completed),
    ensures
        created_task(req, id, now).completed_at == Some(now),
{
}

/// Creation always yields a well-formed task: `completed_at` is populated
/// exactly when the status is `Completed`.
pub proof fn lemma_create_consistent(req: CreateTaskRequest, id: u128, now: i64)
    ensures
        consistent_completion(created_task(req, id, now)),
{
}

/// Updating only the title of a `Completed` task (status untouched) leaves
/// its completion stamp unchanged.
pub proof fn lemma_title_edit_keeps_stamp(existing: Task, req: UpdateTaskRequest, now: i64)
    requires
        existing.status == TaskStatus::Completed,
        existing.completed_at is Some,
        req.title is Some,
        req.description is None,
        req.priority is None,
        req.status is None,
    ensures
        merged_task(existing, req, now).completed_at == existing.completed_at,
        merged_task(existing, req, now).status == TaskStatus::Completed,
{
}

/// An update moving a non-`Completed` task into `Completed` stamps
/// `completed_at` with exactly the update time; when the update does not
/// predate creation, the stamp is no earlier than `created_at`.
pub proof fn lemma_completing_stamps_now(existing: Task, req: UpdateTaskRequest, now: i64)
    requires
        existing.status != TaskStatus::Completed,
        req.status == Some(TaskStatus::Completed),
    ensures
        merged_task(existing, req, now).completed_at == Some(now),
        now >= existing.created_at ==> merged_task(existing, req, now).completed_at->Some_0
            >= merged_task(existing, req, now).created_at,
{
}

/// Re-affirming `Completed` on a task already `Completed` with a stamp on
/// record keeps the original stamp: completing is idempotent.
pub proof fn lemma_recomplete_keeps_stamp(existing: Task, req: UpdateTaskRequest, now: i64)
    requires
        existing.status == TaskStatus::Completed,
        existing.completed_at is Some,
        req.status == Some(TaskStatus::Completed),
    ensures
        merged_task(existing, req, now).completed_at == existing.completed_at,
{
}

/// Explicitly moving a `Completed` task to any non-`Completed` status
/// clears its completion stamp.
pub proof fn lemma_uncompleting_clears_stamp(existing: Task, req: UpdateTaskRequest, now: i64)
    requires
        existing.status == TaskStatus::Completed,
        req.status is Some,
        req.status != Some(TaskStatus::Completed),
    ensures
        merged_task(existing, req, now).completed_at is None,
{
}

/// Reconciliation preserves well-formedness: a merged task has
/// `completed_at` populated exactly when its status is `Completed`.
pub proof fn lemma_update_consistent(existing: Task, req: UpdateTaskRequest, now: i64)
    requires
        consistent_completion(existing),
    ensures
        consistent_completion(merged_task(existing, req, now)),
{
}

} // verus!
