use todo_api::memory_repository::InMemoryTodoRepository;
use todo_api::service::TodoService;
use todo_api::todo::{NewTodo, PatchFields};

fn new_service() -> TodoService<InMemoryTodoRepository> {
    TodoService::new(InMemoryTodoRepository::new())
}

fn patch(
    title: Option<&str>,
    status: Option<&str>,
    description: Option<&str>,
) -> PatchFields {
    PatchFields {
        title: title.map(|s| s.to_string()),
        status: status.map(|s| s.to_string()),
        description: description.map(|s| s.to_string()),
    }
}

#[test]
fn scenario_full_lifecycle() {
    let mut svc = new_service();
    let created = svc
        .create_todo(NewTodo {
            title: "Buy milk".to_string(),
            status: None,
            description: None,
            user_id: "u1".to_string(),
        })
        .unwrap();
    assert_eq!(created.id, 1);
    assert_eq!(created.title, "Buy milk");
    assert_eq!(created.status, "todo");
    assert_eq!(created.description, "");
    assert_eq!(created.user_id, "u1");

    let all = svc.get_todos();
    assert_eq!(all.len(), 1);
    assert_eq!(all[0].id, 1);
    assert_eq!(all[0].title, "Buy milk");

    let updated = svc.update_todo(1, patch(None, Some("done"), None)).unwrap();
    assert_eq!(updated.status, "done");
    let fetched = svc.get_todo(1).unwrap();
    assert_eq!(fetched.status, "done");

    svc.delete_todo(1).unwrap();
    let err = svc.get_todo(1).unwrap_err();
    assert_eq!(err.code, 404);
}

#[test]
fn create_then_get_matches_input_and_timestamps_equal() {
    let mut svc = new_service();
    let created = svc
        .create_todo(NewTodo {
            title: "write report".to_string(),
            status: Some("in-progress".to_string()),
            description: Some("quarterly".to_string()),
            user_id: "u9".to_string(),
        })
        .unwrap();
    assert_eq!(created.created_at, created.updated_at);
    let fetched = svc.get_todo(created.id).unwrap();
    assert_eq!(fetched.id, created.id);
    assert_eq!(fetched.title, "write report");
    assert_eq!(fetched.status, "in-progress");
    assert_eq!(fetched.description, "quarterly");
    assert_eq!(fetched.user_id, "u9");
    assert_eq!(fetched.created_at, created.created_at);
    assert_eq!(fetched.updated_at, created.updated_at);
}

#[test]
fn update_title_changes_only_title_and_updated_at() {
    let mut svc = new_service();
    let created = svc
        .create_todo(NewTodo {
            title: "old title".to_string(),
            status: Some("todo".to_string()),
            description: Some("keep me".to_string()),
            user_id: "u2".to_string(),
        })
        .unwrap();
    let updated = svc
        .update_todo(created.id, patch(Some("X"), None, None))
        .unwrap();
    assert_eq!(updated.title, "X");
    assert_eq!(updated.status, created.status);
    assert_eq!(updated.description, created.description);
    assert_eq!(updated.user_id, created.user_id);
    assert_eq!(updated.created_at, created.created_at);
    assert!(updated.updated_at > created.updated_at);
}

#[test]
fn empty_patch_is_rejected_with_400() {
    let mut svc = new_service();
    let created = svc
        .create_todo(NewTodo {
            title: "t".to_string(),
            status: None,
            description: None,
            user_id: "u".to_string(),
        })
        .unwrap();
    let err = svc.update_todo(created.id, patch(None, None, None)).unwrap_err();
    assert_eq!(err.code, 400);
    // The row is untouched.
    let fetched = svc.get_todo(created.id).unwrap();
    assert_eq!(fetched.updated_at, created.updated_at);
}

#[test]
fn delete_then_get_returns_404() {
    let mut svc = new_service();
    let created = svc
        .create_todo(NewTodo {
            title: "gone soon".to_string(),
            status: None,
            description: None,
            user_id: "u".to_string(),
        })
        .unwrap();
    svc.delete_todo(created.id).unwrap();
    assert_eq!(svc.get_todo(created.id).unwrap_err().code, 404);
    assert_eq!(svc.delete_todo(created.id).unwrap_err().code, 404);
}

#[test]
fn get_missing_id_returns_404_not_500() {
    let svc = new_service();
    let err = svc.get_todo(12345).unwrap_err();
    assert_eq!(err.code, 404);
}

#[test]
fn update_missing_id_returns_404() {
    let mut svc = new_service();
    let err = svc
        .update_todo(77, patch(Some("X"), None, None))
        .unwrap_err();
    assert_eq!(err.code, 404);
}

#[test]
fn list_on_empty_store_is_empty_vec() {
    let svc = new_service();
    let all = svc.get_todos();
    assert!(all.is_empty());
}

#[test]
fn ids_are_assigned_in_order_and_survive_deletes() {
    let mut svc = new_service();
    for n in 0..3 {
        svc.create_todo(NewTodo {
            title: format!("t{}", n),
            status: None,
            description: None,
            user_id: "u".to_string(),
        })
        .unwrap();
    }
    svc.delete_todo(2).unwrap();
    let all = svc.get_todos();
    let ids: Vec<i32> = all.iter().map(|t| t.id).collect();
    assert_eq!(ids, vec![1, 3]);
    let created = svc
        .create_todo(NewTodo {
            title: "t3".to_string(),
            status: None,
            description: None,
            user_id: "u".to_string(),
        })
        .unwrap();
    assert_eq!(created.id, 4);
}

#[test]
fn exhausted_id_supply_is_a_store_error() {
    let mut repo = InMemoryTodoRepository::new();
    repo.next_id = i32::MAX;
    let mut svc = TodoService::new(repo);
    let err = svc
        .create_todo(NewTodo {
            title: "t".to_string(),
            status: None,
            description: None,
            user_id: "u".to_string(),
        })
        .unwrap_err();
    assert_eq!(err.code, 500);
}

#[test]
fn exhausted_clock_is_a_store_error_on_update() {
    let mut svc = new_service();
    let created = svc
        .create_todo(NewTodo {
            title: "t".to_string(),
            status: None,
            description: None,
            user_id: "u".to_string(),
        })
        .unwrap();
    svc.repo.clock = i64::MAX;
    let err = svc
        .update_todo(created.id, patch(Some("X"), None, None))
        .unwrap_err();
    assert_eq!(err.code, 500);
}
