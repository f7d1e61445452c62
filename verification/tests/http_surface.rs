use todo_api::config::AppConfig;
use todo_api::error::ApiError;
use todo_api::http::{parse_id, success_status, HttpAction};

#[test]
fn parse_id_accepts_plain_decimals() {
    assert_eq!(parse_id("5"), Some(5));
    assert_eq!(parse_id("0"), Some(0));
    assert_eq!(parse_id("0042"), Some(42));
    assert_eq!(parse_id("2147483647"), Some(i32::MAX));
}

#[test]
fn parse_id_accepts_negative_decimals() {
    assert_eq!(parse_id("-7"), Some(-7));
    assert_eq!(parse_id("-0"), Some(0));
    assert_eq!(parse_id("-2147483648"), Some(i32::MIN));
}

#[test]
fn parse_id_rejects_malformed_input() {
    assert_eq!(parse_id(""), None);
    assert_eq!(parse_id("-"), None);
    assert_eq!(parse_id("abc"), None);
    assert_eq!(parse_id("12a"), None);
    assert_eq!(parse_id("+5"), None);
    assert_eq!(parse_id(" 5"), None);
    assert_eq!(parse_id("5 "), None);
    assert_eq!(parse_id("1.5"), None);
    assert_eq!(parse_id("１２"), None);
}

#[test]
fn parse_id_rejects_out_of_range_values() {
    assert_eq!(parse_id("2147483648"), None);
    assert_eq!(parse_id("-2147483649"), None);
    assert_eq!(parse_id("99999999999999999999"), None);
    assert_eq!(parse_id("-99999999999999999999"), None);
    assert_eq!(parse_id("00000000002147483647"), Some(i32::MAX));
}

#[test]
fn success_statuses_follow_the_route_table() {
    assert_eq!(success_status(&HttpAction::Create), 201);
    assert_eq!(success_status(&HttpAction::ListAll), 200);
    assert_eq!(success_status(&HttpAction::GetById), 200);
    assert_eq!(success_status(&HttpAction::UpdatePartial), 200);
    assert_eq!(success_status(&HttpAction::Delete), 200);
}

#[test]
fn error_constructors_carry_their_status_codes() {
    assert_eq!(ApiError::validation().code, 400);
    assert_eq!(ApiError::not_found().code, 404);
    let store = ApiError::store(Some("connection refused".to_string()));
    assert_eq!(store.code, 500);
    // The client-visible message stays opaque; the detail is internal.
    assert_eq!(store.message, "store error");
    assert_eq!(store.error.as_deref(), Some("connection refused"));
}

#[test]
fn connect_url_is_assembled_from_the_parts() {
    let cfg = AppConfig {
        app_host: "127.0.0.1".to_string(),
        app_port: 3000,
        app_db_engine: "postgres".to_string(),
        postgres_db: "todos".to_string(),
        postgres_user: "app".to_string(),
        postgres_password: "pw".to_string(),
        postgres_host: "db.internal".to_string(),
    };
    assert_eq!(
        cfg.connect_url(),
        "postgres://app:pw@db.internal/todos"
    );
}
