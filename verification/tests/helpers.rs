use admin_api::clock::{current_epoch_seconds, epoch_seconds_of, generate_id, id_with_stamp};
use admin_api::group::{group_path_segments, upward_group_path};
use admin_api::init::{has_statements, is_init_method, resolve_sql_files, sql_statements};
use admin_api::keys::{key_id, key_valid_to, KEY_LIFETIME_MILLIS};
use admin_api::priority::{next_execution_priority, next_priority, priority_step};
use admin_api::provider::{provider_reference, ReferenceBody, ReferenceError};
use admin_api::requirement::{requirement_name, requirement_to_int};
use admin_api::route::RouteKind;

#[test]
fn requirement_names_and_codes() {
    assert_eq!(requirement_name(Some(0)), Some("REQUIRED"));
    assert_eq!(requirement_name(Some(1)), Some("ALTERNATIVE"));
    assert_eq!(requirement_name(Some(2)), Some("DISABLED"));
    assert_eq!(requirement_name(Some(3)), Some("CONDITIONAL"));
    assert_eq!(requirement_name(Some(4)), None);
    assert_eq!(requirement_name(Some(-1)), None);
    assert_eq!(requirement_name(None), None);
    assert_eq!(requirement_to_int(Some("REQUIRED")), Some(0));
    assert_eq!(requirement_to_int(Some("alternative")), Some(1));
    assert_eq!(requirement_to_int(Some("Disabled")), Some(2));
    assert_eq!(requirement_to_int(Some("conditional")), Some(3));
    assert_eq!(requirement_to_int(Some("optional")), None);
    assert_eq!(requirement_to_int(Some("")), None);
    assert_eq!(requirement_to_int(None), None);
    for code in 0..4 {
        assert_eq!(requirement_to_int(requirement_name(Some(code))), Some(code));
    }
}

#[test]
fn ids_are_stamped() {
    assert_eq!(id_with_stamp("cia", 0), "cia-0");
    assert_eq!(id_with_stamp("cia", 1_700_000_000_000_000_123), "cia-1700000000000000123");
    let id = generate_id("user");
    let stamp = id.strip_prefix("user-").expect("prefix and dash");
    assert!(!stamp.is_empty() && stamp.chars().all(|c| c.is_ascii_digit()));
}

#[test]
fn epoch_seconds() {
    assert_eq!(epoch_seconds_of(Some(1_700_000_000)), 1_700_000_000);
    assert_eq!(epoch_seconds_of(None), 0);
    assert_eq!(epoch_seconds_of(Some(u64::MAX)), -1);
    assert!(current_epoch_seconds() > 1_600_000_000);
}

#[test]
fn scripts_are_cut_into_statements() {
    assert_eq!(
        sql_statements("CREATE TABLE A (X INT);\n  INSERT INTO A VALUES (1) ;; \n"),
        vec!["CREATE TABLE A (X INT)", "INSERT INTO A VALUES (1)"]
    );
    assert!(sql_statements("  \n ; ").is_empty());
    assert!(has_statements(" SELECT 1 "));
    assert!(!has_statements(" \t\n"));
}

#[test]
fn sql_files_come_from_config_or_default() {
    assert_eq!(resolve_sql_files(None), vec!["sql/schema.sql"]);
    assert_eq!(resolve_sql_files(Some(" a.sql, ,b.sql ")), vec!["a.sql", "b.sql"]);
    assert!(resolve_sql_files(Some("")).is_empty());
}

#[test]
fn only_post_initializes() {
    assert!(is_init_method("POST"));
    assert!(!is_init_method("post"));
    assert!(!is_init_method("GET"));
}

#[test]
fn group_paths_split_into_names() {
    assert_eq!(group_path_segments("/top/child"), Some(vec!["top".to_string(), "child".to_string()]));
    assert_eq!(group_path_segments("top"), Some(vec!["top".to_string()]));
    assert_eq!(group_path_segments("//top/child//"), Some(vec!["top".to_string(), "child".to_string()]));
    assert_eq!(
        group_path_segments("/a//b"),
        Some(vec!["a".to_string(), String::new(), "b".to_string()])
    );
    assert_eq!(group_path_segments("///"), None);
    assert_eq!(group_path_segments(""), None);
}

#[test]
fn group_paths_are_built_from_the_top() {
    let names = vec!["leaf".to_string(), "mid".to_string(), "top".to_string()];
    let path = upward_group_path(&names);
    assert_eq!(path, "/top/mid/leaf");
    assert_eq!(
        group_path_segments(&path),
        Some(vec!["top".to_string(), "mid".to_string(), "leaf".to_string()])
    );
    assert_eq!(upward_group_path(&Vec::new()), "/");
    assert_eq!(upward_group_path(&vec!["solo".to_string()]), "/solo");
}

#[test]
fn priorities_move_one_step_and_stop_at_zero() {
    assert_eq!(priority_step(RouteKind::RequiredActionLowerPriority), Some(-1));
    assert_eq!(priority_step(RouteKind::AuthExecutionLowerPriority), Some(-1));
    assert_eq!(priority_step(RouteKind::RequiredActionRaisePriority), Some(1));
    assert_eq!(priority_step(RouteKind::AuthExecutionRaisePriority), Some(1));
    assert_eq!(priority_step(RouteKind::Users), None);
    assert_eq!(next_priority(10, 1), 11);
    assert_eq!(next_priority(10, -1), 9);
    assert_eq!(next_priority(0, -1), 0);
    assert_eq!(next_priority(-5, 1), 0);
    assert_eq!(next_priority(next_priority(7, 1), -1), 7);
}

#[test]
fn new_executions_come_last() {
    assert_eq!(next_execution_priority(Some(Some(20))), 21);
    assert_eq!(next_execution_priority(Some(None)), 0);
    assert_eq!(next_execution_priority(None), 0);
    assert_eq!(next_execution_priority(Some(Some(-3))), -2);
}

#[test]
fn realm_keys() {
    assert_eq!(key_id("demo"), "rsa-demo");
    assert_eq!(key_valid_to(1_700_000_000), 1_700_000_000_000 + KEY_LIFETIME_MILLIS);
    assert_eq!(key_valid_to(0), 31_536_000_000);
    assert_eq!(key_valid_to(i64::MAX), i64::MAX);
    assert_eq!(key_valid_to(i64::MIN), i64::MIN + 31_536_000_000);
    assert_eq!(key_valid_to(i64::MAX / 1000), i64::MAX);
}

#[test]
fn bodies_name_identity_providers() {
    assert_eq!(provider_reference(ReferenceBody::Text("github".into())), Ok("github".to_string()));
    let object = |alias: Option<&str>, id: Option<Option<&str>>, internal_id: Option<&str>| ReferenceBody::Object {
        alias: alias.map(String::from),
        id: id.map(|v| v.map(String::from)),
        internal_id: internal_id.map(String::from),
    };
    assert_eq!(provider_reference(object(Some("gh"), Some(Some("1")), Some("2"))), Ok("gh".to_string()));
    assert_eq!(provider_reference(object(None, Some(Some("1")), Some("2"))), Ok("1".to_string()));
    assert_eq!(provider_reference(object(None, None, Some("2"))), Ok("2".to_string()));
    assert_eq!(provider_reference(object(None, Some(None), Some("2"))), Err(ReferenceError::MissingName));
    assert_eq!(provider_reference(object(None, None, None)), Err(ReferenceError::MissingName));
    assert_eq!(provider_reference(ReferenceBody::Other), Err(ReferenceError::WrongShape));
}
