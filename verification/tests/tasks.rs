use tasktrack::handlers::create_task;
use tasktrack::handlers::create_task_now;
use tasktrack::handlers::delete_task;
use tasktrack::handlers::get_task;
use tasktrack::handlers::get_tasks;
use tasktrack::handlers::update_task;
use tasktrack::handlers::update_task_now;
use tasktrack::handlers::AppError;
use tasktrack::models::CreateTaskRequest;
use tasktrack::models::Task;
use tasktrack::models::TaskPriority;
use tasktrack::models::TaskStatus;
use tasktrack::models::UpdateTaskRequest;
use tasktrack::reconcile::for_create;
use tasktrack::reconcile::for_update;
use tasktrack::store::TaskStore;

fn create_req(title: &str, description: &str, priority: TaskPriority) -> CreateTaskRequest {
    CreateTaskRequest {
        title: title.to_string(),
        description: description.to_string(),
        priority,
        status: None,
    }
}

fn no_op_update() -> UpdateTaskRequest {
    UpdateTaskRequest {
        title: None,
        description: None,
        priority: None,
        status: None,
    }
}

#[test]
fn create_without_status_defaults_to_pending() {
    let req = create_req("write report", "quarterly numbers", TaskPriority::Medium);
    let t = for_create(&req, 11, 1_000);
    assert_eq!(t.status, TaskStatus::Pending);
    assert_eq!(t.completed_at, None);
    assert_eq!(t.id, 11);
    assert_eq!(t.created_at, 1_000);
    assert_eq!(t.title, "write report");
    assert_eq!(t.description, "quarterly numbers");
    assert_eq!(t.priority, TaskPriority::Medium);
}

#[test]
fn create_with_completed_status_stamps_creation_time() {
    let mut req = create_req("done already", "", TaskPriority::Low);
    req.status = Some(TaskStatus::Completed);
    let now = 5_000;
    let t = for_create(&req, 3, now);
    assert_eq!(t.status, TaskStatus::Completed);
    assert_eq!(t.completed_at, Some(now));
    assert!(t.completed_at.unwrap() <= now);
}

#[test]
fn create_with_explicit_in_progress() {
    let mut req = create_req("ongoing", "", TaskPriority::High);
    req.status = Some(TaskStatus::InProgress);
    let t = for_create(&req, 4, 77);
    assert_eq!(t.status, TaskStatus::InProgress);
    assert_eq!(t.completed_at, None);
}

fn completed_task(id: u128, stamp: i64) -> Task {
    Task {
        id,
        title: "t".to_string(),
        description: "d".to_string(),
        priority: TaskPriority::Low,
        status: TaskStatus::Completed,
        created_at: 10,
        completed_at: Some(stamp),
    }
}

#[test]
fn title_only_update_keeps_completion_stamp() {
    let existing = completed_task(1, 500);
    let mut req = no_op_update();
    req.title = Some("renamed".to_string());
    let merged = for_update(&existing, &req, 9_999);
    assert_eq!(merged.title, "renamed");
    assert_eq!(merged.status, TaskStatus::Completed);
    assert_eq!(merged.completed_at, Some(500));
    assert_eq!(merged.created_at, 10);
    assert_eq!(merged.id, 1);
}

#[test]
fn completing_a_pending_task_stamps_update_time() {
    let req = create_req("todo", "", TaskPriority::Low);
    let existing = for_create(&req, 2, 100);
    let mut up = no_op_update();
    up.status = Some(TaskStatus::Completed);
    let now = 250;
    let merged = for_update(&existing, &up, now);
    assert_eq!(merged.completed_at, Some(now));
    assert!(merged.completed_at.unwrap() >= now);
    assert!(merged.completed_at.unwrap() >= merged.created_at);
}

#[test]
fn recompleting_keeps_original_stamp() {
    let existing = completed_task(5, 600);
    let mut up = no_op_update();
    up.status = Some(TaskStatus::Completed);
    let merged = for_update(&existing, &up, 8_888);
    assert_eq!(merged.completed_at, Some(600));
}

#[test]
fn uncompleting_clears_stamp() {
    let existing = completed_task(6, 600);
    let mut up = no_op_update();
    up.status = Some(TaskStatus::Pending);
    let merged = for_update(&existing, &up, 700);
    assert_eq!(merged.status, TaskStatus::Pending);
    assert_eq!(merged.completed_at, None);

    let mut up2 = no_op_update();
    up2.status = Some(TaskStatus::InProgress);
    let merged2 = for_update(&existing, &up2, 700);
    assert_eq!(merged2.status, TaskStatus::InProgress);
    assert_eq!(merged2.completed_at, None);
}

#[test]
fn update_merges_each_field_independently() {
    let req = create_req("a", "b", TaskPriority::Low);
    let existing = for_create(&req, 7, 1);
    let up = UpdateTaskRequest {
        title: Some("new title".to_string()),
        description: Some("new description".to_string()),
        priority: Some(TaskPriority::High),
        status: None,
    };
    let merged = for_update(&existing, &up, 2);
    assert_eq!(merged.title, "new title");
    assert_eq!(merged.description, "new description");
    assert_eq!(merged.priority, TaskPriority::High);
    assert_eq!(merged.status, TaskStatus::Pending);
    assert_eq!(merged.completed_at, None);
    assert_eq!(merged.id, 7);
    assert_eq!(merged.created_at, 1);
}

#[test]
fn delete_then_fetch_and_delete_again_report_not_found() {
    let mut store = TaskStore::new();
    let req = create_req("ephemeral", "", TaskPriority::Low);
    let t = create_task(&mut store, &req, 42, 100).unwrap();
    assert!(get_task(&store, t.id).is_ok());

    assert!(delete_task(&mut store, t.id).is_ok());
    assert_eq!(get_task(&store, t.id).unwrap_err(), AppError::NotFound);
    assert_eq!(delete_task(&mut store, t.id).unwrap_err(), AppError::NotFound);
    assert_eq!(store.len(), 0);
}

#[test]
fn listing_returns_exactly_the_created_tasks_newest_first() {
    let mut store = TaskStore::new();
    let ids: [u128; 3] = [1, 2, 3];
    let times: [i64; 3] = [10, 30, 20];
    for k in 0..3 {
        let req = create_req(&format!("task {}", ids[k]), "", TaskPriority::Low);
        create_task(&mut store, &req, ids[k], times[k]).unwrap();
    }
    let listed = get_tasks(&store);
    assert_eq!(listed.len(), 3);
    assert_eq!(listed[0].created_at, 30);
    assert_eq!(listed[1].created_at, 20);
    assert_eq!(listed[2].created_at, 10);
    let mut seen: Vec<u128> = listed.iter().map(|t| t.id).collect();
    seen.sort();
    assert_eq!(seen, vec![1, 2, 3]);
}

#[test]
fn create_fetch_round_trip() {
    let mut store = TaskStore::new();
    let req = create_req("fetch me", "body", TaskPriority::High);
    let created = create_task(&mut store, &req, 9, 123).unwrap();
    let fetched = get_task(&store, 9).unwrap();
    assert_eq!(fetched.id, created.id);
    assert_eq!(fetched.title, "fetch me");
    assert_eq!(fetched.description, "body");
    assert_eq!(fetched.priority, TaskPriority::High);
    assert_eq!(fetched.status, TaskStatus::Pending);
    assert_eq!(fetched.created_at, 123);
    assert_eq!(fetched.completed_at, None);
}

#[test]
fn duplicate_identifier_is_an_internal_error() {
    let mut store = TaskStore::new();
    let req = create_req("first", "", TaskPriority::Low);
    create_task(&mut store, &req, 1, 10).unwrap();
    let req2 = create_req("second", "", TaskPriority::Low);
    let err = create_task(&mut store, &req2, 1, 20).unwrap_err();
    assert_eq!(err, AppError::Internal);
    assert_eq!(store.len(), 1);
}

#[test]
fn updating_a_missing_task_reports_not_found() {
    let mut store = TaskStore::new();
    let mut up = no_op_update();
    up.title = Some("nobody".to_string());
    let err = update_task(&mut store, 77, &up, 5).unwrap_err();
    assert_eq!(err, AppError::NotFound);
    let err2 = update_task_now(&mut store, 77, &up).unwrap_err();
    assert_eq!(err2, AppError::NotFound);
}

#[test]
fn lifecycle_scenario_through_the_handlers() {
    let mut store = TaskStore::new();
    let req = create_req("A", "", TaskPriority::High);
    let created = create_task(&mut store, &req, 1, 100).unwrap();
    assert_eq!(created.status, TaskStatus::Pending);
    assert_eq!(created.completed_at, None);

    let mut complete = no_op_update();
    complete.status = Some(TaskStatus::Completed);
    let done = update_task(&mut store, 1, &complete, 200).unwrap();
    assert_eq!(done.completed_at, Some(200));

    let mut rename = no_op_update();
    rename.title = Some("B".to_string());
    let renamed = update_task(&mut store, 1, &rename, 300).unwrap();
    assert_eq!(renamed.completed_at, Some(200));
    assert_eq!(renamed.title, "B");

    let mut reopen = no_op_update();
    reopen.status = Some(TaskStatus::Pending);
    let reopened = update_task(&mut store, 1, &reopen, 400).unwrap();
    assert_eq!(reopened.completed_at, None);
    assert_eq!(reopened.status, TaskStatus::Pending);
    assert_eq!(reopened.title, "B");

    let stored = get_task(&store, 1).unwrap();
    assert_eq!(stored.title, "B");
    assert_eq!(stored.created_at, 100);
}

#[test]
fn create_task_now_draws_identifier_and_clock() {
    let mut store = TaskStore::new();
    let req = create_req("clocked", "", TaskPriority::Medium);
    let t = create_task_now(&mut store, &req).unwrap();
    assert_eq!(t.status, TaskStatus::Pending);
    assert_eq!(t.completed_at, None);
    assert_eq!(t.title, "clocked");
    assert!(t.created_at > 0);
    assert_eq!(store.len(), 1);

    let mut up = no_op_update();
    up.status = Some(TaskStatus::Completed);
    let done = update_task_now(&mut store, t.id, &up).unwrap();
    assert!(done.completed_at.is_some());
    assert!(done.completed_at.unwrap() >= done.created_at);
}

#[test]
fn wire_names_are_lower_camel_case() {
    assert_eq!(TaskPriority::Low.wire_name(), "low");
    assert_eq!(TaskPriority::Medium.wire_name(), "medium");
    assert_eq!(TaskPriority::High.wire_name(), "high");
    assert_eq!(TaskStatus::Pending.wire_name(), "pending");
    assert_eq!(TaskStatus::InProgress.wire_name(), "inProgress");
    assert_eq!(TaskStatus::Completed.wire_name(), "completed");
}

#[test]
fn errors_surface_fixed_statuses_and_messages() {
    assert_eq!(AppError::NotFound.http_status(), 404);
    assert_eq!(AppError::NotFound.message(), "Task not found");
    assert_eq!(AppError::Internal.http_status(), 500);
    assert_eq!(AppError::Internal.message(), "Internal server error");
}
