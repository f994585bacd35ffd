//! Request handlers: orchestration of repository reads, reconciliation and
//! repository writes, and the mapping of outcomes to errors.
//!
//! Each handler takes the repository and plain request values. The
//! variants that assign the identifier and read the clock themselves
//! (`create_task_now`, `update_task_now`) promise what holds of every
//! identifier and every clock reading; the variants taking `id` and `now`
//! as arguments pin the outcome exactly.

use vstd::prelude::*;

use crate::models::CreateTaskRequest;
use crate::models::Task;
use crate::models::TaskStatus;
use crate::models::UpdateTaskRequest;
use crate::reconcile::created_task;
use crate::reconcile::for_create;
use crate::reconcile::for_update;
use crate::reconcile::merged_task;
use crate::store::TaskStore;
use crate::store::contains_id;
use crate::store::index_of_id;
use crate::store::insert_sorted;
use crate::store::sorted_newest_first;
use crate::store::task_with_id;

verus! {

/// The two user-visible failures: the identifier resolves to no record at
/// the moment of the operation, or the infrastructure failed. Details of
/// the latter are never exposed to the caller.
#[derive(Clone, Copy, Debug, PartialEq, Eq, Structural)]
pub enum AppError {
    NotFound,
    Internal,
}

impl AppError {
    /// The HTTP status this error surfaces as.
    pub fn http_status(self) -> (r: u16)
        ensures
            self == AppError::NotFound ==> r == 404,
            self == AppError::Internal ==> r == 500,
    {
        match self {
            AppError::NotFound => 404,
            AppError::Internal => 500,
        }
    }

    /// The fixed message this error surfaces with; internal detail is never
    /// part of it.
    pub fn message(self) -> (r: &'static str)
        ensures
            self == AppError::NotFound ==> r@ == "Task not found"@,
            self == AppError::Internal ==> r@ == "Internal server error"@,
    {
        match self {
            AppError::NotFound => "Task not found",
            AppError::Internal => "Internal server error",
        }
    }
}

/// Relies on chrono's `Utc::now` and `DateTime::timestamp_millis` for the
/// current time as milliseconds since the epoch. Nothing is assumed of the
/// value returned. `Utc::now` panics if the system clock reads before the
/// Unix epoch — environmental and independent of any input.
#[verifier::external_body]
fn now_millis() -> i64 {
    chrono::Utc::now().timestamp_millis()
}

/// Relies on uuid's `Uuid::new_v4` and `Uuid::as_u128` for a freshly drawn
/// random 128-bit identifier. Nothing is assumed of the value returned,
/// not even freshness. `new_v4` panics if the operating system's random
/// number source fails — environmental and independent of any input.
#[verifier::external_body]
fn fresh_task_id() -> u128 {
    uuid::Uuid::new_v4().as_u128()
}

/// Lists every stored task, newest `created_at` first.
pub fn get_tasks(store: &TaskStore) -> (r: Vec<Task>)
    requires
        store.wf(),
    ensures
        r@ == store@,
        sorted_newest_first(r@),
{
    store.list_all()
}

/// Fetches the task with this identifier, or reports that the identifier
/// resolves to no record.
pub fn get_task(store: &TaskStore, id: u128) -> (r: Result<Task, AppError>)
    requires
        store.wf(),
    ensures
        match r {
            Ok(t) => contains_id(store@, id) && t == task_with_id(store@, id),
            Err(e) => e == AppError::NotFound && !contains_id(store@, id),
        },
{
    match store.fetch_by_id(id) {
        Some(t) => Ok(t),
        None => Err(AppError::NotFound),
    }
}

/// Creates a task from the request, with the identifier and the creation
/// time supplied by the caller, and stores it. An identifier already in
/// use is an infrastructure failure (the store's uniqueness rule), never a
/// silent overwrite.
pub fn create_task(store: &mut TaskStore, req: &CreateTaskRequest, id: u128, now: i64) -> (r:
    Result<Task, AppError>)
    requires
        old(store).wf(),
    ensures
        final(store).wf(),
        match r {
            Ok(t) => !contains_id(old(store)@, id) && t == created_task(*req, id, now)
                && final(store)@ == insert_sorted(old(store)@, t) && contains_id(
                final(store)@,
                id,
            ),
            Err(e) => e == AppError::Internal && contains_id(old(store)@, id) && final(store)@
                == old(store)@,
        },
        !contains_id(old(store)@, id) ==> r is Ok,
        r is Ok && req.status is None ==> r->Ok_0.status == TaskStatus::Pending
            && r->Ok_0.completed_at is None,
        r is Ok && req.status == Some(TaskStatus::Completed) ==> r->Ok_0.status
            == TaskStatus::Completed && r->Ok_0.completed_at == Some(now),
{
    if store.contains(id) {
        return Err(AppError::Internal);
    }
    let t = for_create(req, id, now);
    let stored = store.insert(t);
    Ok(stored)
}

/// Creates a task from the request, drawing a fresh identifier and reading
/// the clock. Whatever identifier and time come back, the stored task is
/// the one reconciliation yields for them. Failure means the drawn
/// identifier collided with a stored one, so an empty repository always
/// accepts the creation.
pub fn create_task_now(store: &mut TaskStore, req: &CreateTaskRequest) -> (r: Result<
    Task,
    AppError,
>)
    requires
        old(store).wf(),
    ensures
        final(store).wf(),
        match r {
            Ok(t) => exists|id: u128, now: i64|
                {
                    &&& !contains_id(old(store)@, id)
                    &&& t == #[trigger] created_task(*req, id, now)
                    &&& final(store)@ == insert_sorted(old(store)@, t)
                },
            Err(e) => e == AppError::Internal && final(store)@ == old(store)@ && old(store)@.len()
                > 0,
        },
{
    let id = fresh_task_id();
    let now = now_millis();
    let r = create_task(store, req, id, now);
    proof {
        if r is Ok {
            let t = r->Ok_0;
            assert(!contains_id(old(store)@, id) && t == created_task(*req, id, now) && store@
                == insert_sorted(old(store)@, t));
        } else {
            assert(contains_id(old(store)@, id));
            let i = choose|i: int| 0 <= i < old(store)@.len() && old(store)@[i].id == id;
            assert(old(store)@.len() > 0);
        }
    }
    r
}

/// Applies a partial update to the task with this identifier, with the
/// update time supplied by the caller: the stored task is merged with the
/// request and the merged record replaces it.
pub fn update_task(store: &mut TaskStore, id: u128, req: &UpdateTaskRequest, now: i64) -> (r:
    Result<Task, AppError>)
    requires
        old(store).wf(),
    ensures
        final(store).wf(),
        match r {
            Ok(t) => contains_id(old(store)@, id) && t == merged_task(
                task_with_id(old(store)@, id),
                *req,
                now,
            ) && final(store)@ == old(store)@.update(index_of_id(old(store)@, id), t),
            Err(e) => e == AppError::NotFound && !contains_id(old(store)@, id) && final(store)@
                == old(store)@,
        },
{
    let existing = match store.fetch_by_id(id) {
        Some(t) => t,
        None => {
            return Err(AppError::NotFound);
        },
    };
    let merged = for_update(&existing, req, now);
    match store.update_by_id(id, merged) {
        Some(stored) => Ok(stored),
        None => Err(AppError::NotFound),
    }
}

/// Applies a partial update to the task with this identifier, reading the
/// clock itself. Whatever time comes back, the stored task is the merge
/// reconciliation yields for it.
pub fn update_task_now(store: &mut TaskStore, id: u128, req: &UpdateTaskRequest) -> (r: Result<
    Task,
    AppError,
>)
    requires
        old(store).wf(),
    ensures
        final(store).wf(),
        match r {
            Ok(t) => contains_id(old(store)@, id) && exists|now: i64|
                {
                    &&& t == #[trigger] merged_task(task_with_id(old(store)@, id), *req, now)
                    &&& final(store)@ == old(store)@.update(index_of_id(old(store)@, id), t)
                },
            Err(e) => e == AppError::NotFound && !contains_id(old(store)@, id) && final(store)@
                == old(store)@,
        },
{
    let now = now_millis();
    let r = update_task(store, id, req, now);
    proof {
        if r is Ok {
            let t = r->Ok_0;
            assert(t == merged_task(task_with_id(old(store)@, id), *req, now));
            assert(store@ == old(store)@.update(index_of_id(old(store)@, id), t));
        }
    }
    r
}

/// Deletes the task with this identifier, or reports that the identifier
/// resolves to no record. A second delete of the same identifier reports
/// exactly that.
pub fn delete_task(store: &mut TaskStore, id: u128) -> (r: Result<(), AppError>)
    requires
        old(store).wf(),
    ensures
        final(store).wf(),
        match r {
            Ok(u) => contains_id(old(store)@, id) && final(store)@ == old(store)@.remove(
                index_of_id(old(store)@, id),
            ) && !contains_id(final(store)@, id),
            Err(e) => e == AppError::NotFound && !contains_id(old(store)@, id) && final(store)@
                == old(store)@,
        },
{
    if store.delete_by_id(id) {
        Ok(())
    } else {
        Err(AppError::NotFound)
    }
}

} // verus!
