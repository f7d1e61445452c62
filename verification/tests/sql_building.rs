use todo_api::sql::{build_update, delete_sql, insert_sql, select_all_sql, select_by_id_sql};
use todo_api::todo::PatchFields;

fn patch(
    title: Option<&str>,
    status: Option<&str>,
    description: Option<&str>,
) -> PatchFields {
    PatchFields {
        title: title.map(|s| s.to_string()),
        status: status.map(|s| s.to_string()),
        description: description.map(|s| s.to_string()),
    }
}

#[test]
fn fixed_statements() {
    assert_eq!(
        insert_sql(),
        "INSERT INTO todo (title, status, description, user_id) VALUES ($1, $2, $3, $4) RETURNING id, title, status, description, user_id, created_at, updated_at"
    );
    assert_eq!(
        select_all_sql(),
        "SELECT id, title, status, description, user_id, created_at, updated_at FROM todo"
    );
    assert_eq!(
        select_by_id_sql(),
        "SELECT id, title, status, description, user_id, created_at, updated_at FROM todo WHERE id = $1"
    );
    assert_eq!(delete_sql(), "DELETE FROM todo WHERE id = $1");
}

#[test]
fn update_with_status_only() {
    let plan = build_update(&patch(None, Some("done"), None)).unwrap();
    assert_eq!(plan.sql, "UPDATE todo SET status = $1 WHERE id = $2");
    assert_eq!(plan.binds, vec!["done".to_string()]);
}

#[test]
fn update_with_title_only() {
    let plan = build_update(&patch(Some("X"), None, None)).unwrap();
    assert_eq!(plan.sql, "UPDATE todo SET title = $1 WHERE id = $2");
    assert_eq!(plan.binds, vec!["X".to_string()]);
}

#[test]
fn update_with_description_only() {
    let plan = build_update(&patch(None, None, Some("d"))).unwrap();
    assert_eq!(plan.sql, "UPDATE todo SET description = $1 WHERE id = $2");
    assert_eq!(plan.binds, vec!["d".to_string()]);
}

#[test]
fn update_with_status_and_title() {
    let plan = build_update(&patch(Some("T"), Some("done"), None)).unwrap();
    assert_eq!(plan.sql, "UPDATE todo SET status = $1, title = $2 WHERE id = $3");
    assert_eq!(plan.binds, vec!["done".to_string(), "T".to_string()]);
}

#[test]
fn update_with_title_and_description() {
    let plan = build_update(&patch(Some("T"), None, Some("D"))).unwrap();
    assert_eq!(plan.sql, "UPDATE todo SET title = $1, description = $2 WHERE id = $3");
    assert_eq!(plan.binds, vec!["T".to_string(), "D".to_string()]);
}

#[test]
fn update_with_all_three_fields() {
    let plan = build_update(&patch(Some("T"), Some("done"), Some("D"))).unwrap();
    assert_eq!(
        plan.sql,
        "UPDATE todo SET status = $1, title = $2, description = $3 WHERE id = $4"
    );
    assert_eq!(
        plan.binds,
        vec!["done".to_string(), "T".to_string(), "D".to_string()]
    );
}

#[test]
fn update_with_empty_patch_is_rejected() {
    let err = build_update(&patch(None, None, None)).unwrap_err();
    assert_eq!(err.code, 400);
}

#[test]
fn statement_text_never_contains_bound_values() {
    let sneaky = "1; DROP TABLE todo; --";
    let plan = build_update(&patch(Some(sneaky), None, None)).unwrap();
    assert_eq!(plan.sql, "UPDATE todo SET title = $1 WHERE id = $2");
    assert!(!plan.sql.contains(sneaky));
    assert_eq!(plan.binds, vec![sneaky.to_string()]);
}
