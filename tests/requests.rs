use taskboard::decimal::{format_i64, parse_i64};
use taskboard::error::Status;
use taskboard::guards::JwtAuth;
use taskboard::handlers::{
    merge_task_update, project_created, project_to_check, project_deleted, project_found, project_tasks, project_tasks_allowed,
    project_update_allowed, project_updated, sign_in, sign_up, sign_up_hash, target_project_exists, task_created,
    task_deleted, task_found, task_to_update, task_updated,
};
use taskboard::jwt::{verify_token, AuthConfig, Claims};
use taskboard::models::{
    Lookup, NewProject, NewTask, NewUser, Project, TaskRow, UpdatedTask, UserCredential, UserRow, UtcDateTime,
};
use taskboard::routes::{auth_routes, index, project_routes, tasks_routes, Method, Operation};
use taskboard::utils::{parse_date, parse_user_id};

const NOW: u64 = 1_700_000_000;

fn config() -> AuthConfig {
    AuthConfig::new(Some("test-secret".to_string())).unwrap()
}

fn when(year: i32, month: u8, day: u8) -> UtcDateTime {
    UtcDateTime { year, month, day, hour: 12, minute: 30, second: 15 }
}

fn row(id: i64, project_id: Option<i64>) -> TaskRow {
    TaskRow {
        id,
        user_id: 4,
        project_id,
        title: format!("task {}", id),
        description: Some("old".to_string()),
        created_at: when(2024, 2, 29),
    }
}

fn identity(sub: &str) -> JwtAuth {
    JwtAuth { claims: Claims { sub: sub.to_string(), exp: 10, iat: 0, role: "user".to_string() } }
}

#[test]
fn sign_up_returns_user_and_session() {
    let c = config();
    let new_user = NewUser { email: "a@x.com".to_string(), username: "a".to_string(), password: "pw123".to_string() };
    let hash = sign_up_hash(&new_user).unwrap();
    assert!(hash.starts_with("$argon2"));
    let s = sign_up(&c, &new_user, Some(17), NOW).unwrap();
    assert_eq!(s.user.id, 17);
    assert_eq!(s.user.username, "a");
    assert_eq!(s.user.email, "a@x.com");
    assert_eq!(s.user.role, "user");
    let claims = verify_token(&c, &s.token, NOW + 1).unwrap();
    assert_eq!(claims.sub, "17");
    assert_eq!(claims.role, "user");
    assert_eq!(parse_user_id(JwtAuth { claims }).unwrap(), 17);
}

#[test]
fn sign_up_store_failure_is_500() {
    let new_user = NewUser { email: "a@x.com".to_string(), username: "a".to_string(), password: "pw".to_string() };
    let e = sign_up(&config(), &new_user, None, NOW).unwrap_err();
    assert_eq!(e.status.code(), 500);
    assert_eq!(e.body.error, "Database Error");
}

#[test]
fn sign_in_with_right_password() {
    let c = config();
    let hash = taskboard::password::hash_password("pw123").unwrap();
    let stored = UserRow { id: 3, username: "a".to_string(), email: "a@x.com".to_string(), password: hash };
    let cred = UserCredential { email: "a@x.com".to_string(), password: "pw123".to_string() };
    let s = sign_in(&c, &cred, Lookup::Found(stored), NOW).unwrap();
    assert_eq!(s.user.id, 3);
    assert_eq!(s.user.role, "user");
    assert_eq!(verify_token(&c, &s.token, NOW).unwrap().sub, "3");
}

#[test]
fn sign_in_with_wrong_password_is_401_without_token() {
    let c = config();
    let hash = taskboard::password::hash_password("pw123").unwrap();
    let stored = UserRow { id: 3, username: "a".to_string(), email: "a@x.com".to_string(), password: hash };
    let cred = UserCredential { email: "a@x.com".to_string(), password: "wrong".to_string() };
    let e = sign_in(&c, &cred, Lookup::Found(stored), NOW).unwrap_err();
    assert_eq!(e.status, Status::Unauthorized);
    assert_eq!(e.status.code(), 401);
    assert_eq!(e.body.error, "email or password are incorrect");
}

#[test]
fn sign_in_unknown_email_and_store_failure() {
    let c = config();
    let cred = UserCredential { email: "b@x.com".to_string(), password: "pw".to_string() };
    let e = sign_in(&c, &cred, Lookup::Missing, NOW).unwrap_err();
    assert_eq!(e.status.code(), 401);
    assert_eq!(e.body.error, "email or password are incorrect");
    let e = sign_in(&c, &cred, Lookup::Failed, NOW).unwrap_err();
    assert_eq!(e.status.code(), 500);
    let bad = UserRow { id: 1, username: "b".to_string(), email: "b@x.com".to_string(), password: "garbage".to_string() };
    assert_eq!(sign_in(&c, &cred, Lookup::Found(bad), NOW).unwrap_err().status.code(), 401);
}

#[test]
fn user_id_parsing() {
    assert_eq!(parse_user_id(identity("42")).unwrap(), 42);
    assert_eq!(parse_user_id(identity("-7")).unwrap(), -7);
    let e = parse_user_id(identity("abc")).unwrap_err();
    assert_eq!(e.status.code(), 401);
    assert_eq!(e.body.error, "Invalid user ID in token");
}

#[test]
fn decimal_parsing_edges() {
    assert_eq!(parse_i64("0"), Some(0));
    assert_eq!(parse_i64("+15"), Some(15));
    assert_eq!(parse_i64("007"), Some(7));
    assert_eq!(parse_i64("9223372036854775807"), Some(i64::MAX));
    assert_eq!(parse_i64("-9223372036854775808"), Some(i64::MIN));
    assert_eq!(parse_i64("9223372036854775808"), None);
    assert_eq!(parse_i64("-9223372036854775809"), None);
    assert_eq!(parse_i64("99999999999999999999999"), None);
    assert_eq!(parse_i64(""), None);
    assert_eq!(parse_i64("-"), None);
    assert_eq!(parse_i64("+"), None);
    assert_eq!(parse_i64("1 "), None);
    assert_eq!(parse_i64("1a"), None);
    assert_eq!(parse_i64("٣"), None);
    for s in ["12", "-3", "+4", "x", "", "-", "18446744073709551616", "-0"] {
        assert_eq!(parse_i64(s), s.parse::<i64>().ok());
    }
}

#[test]
fn date_checks() {
    assert_eq!(parse_date(when(2024, 2, 29)).unwrap(), when(2024, 2, 29));
    assert!(parse_date(when(2023, 2, 29)).is_err());
    assert!(parse_date(when(1900, 2, 29)).is_err());
    assert!(parse_date(when(2000, 2, 29)).is_ok());
    assert!(parse_date(when(2024, 4, 31)).is_err());
    assert!(parse_date(when(2024, 13, 1)).is_err());
    assert!(parse_date(when(2024, 1, 0)).is_err());
    let late = UtcDateTime { year: 2024, month: 1, day: 1, hour: 24, minute: 0, second: 0 };
    let e = parse_date(late).unwrap_err();
    assert_eq!(e.status.code(), 500);
    assert_eq!(e.body.error, "Database error");
}

#[test]
fn project_creation_and_lookup() {
    let p = project_created(4, &NewProject { name: "home".to_string() }, Some(9)).unwrap();
    assert_eq!((p.id, p.user_id, p.name.as_str()), (9, 4, "home"));
    assert_eq!(project_created(4, &NewProject { name: "x".to_string() }, None).unwrap_err().status.code(), 500);
    let stored = Project { id: 9, user_id: 4, name: "home".to_string() };
    let found = project_found(4, Lookup::Found(stored)).unwrap();
    assert_eq!(found.name, "home");
    let e = project_found(4, Lookup::Missing).unwrap_err();
    assert_eq!(e.status, Status::NotFound);
    assert_eq!(e.body.error, "Project not found or access denied.");
    let e = project_found(4, Lookup::Failed).unwrap_err();
    assert_eq!(e.body.error, "Database error.");
    assert_eq!(e.status.code(), 500);
}

#[test]
fn project_update_steps() {
    assert!(project_update_allowed(Lookup::Found(Project { id: 1, user_id: 2, name: "n".to_string() })).is_ok());
    assert_eq!(project_update_allowed(Lookup::Missing).unwrap_err().status.code(), 404);
    assert_eq!(project_update_allowed(Lookup::Failed).unwrap_err().status.code(), 500);
    let p = project_updated(1, 2, &NewProject { name: "renamed".to_string() }, true).unwrap();
    assert_eq!((p.id, p.user_id, p.name.as_str()), (1, 2, "renamed"));
    assert_eq!(project_updated(1, 2, &NewProject { name: "r".to_string() }, false).unwrap_err().status.code(), 500);
}

#[test]
fn project_tasks_listing() {
    assert!(project_tasks_allowed(Lookup::Found(5)).is_ok());
    assert_eq!(project_tasks_allowed(Lookup::Missing).unwrap_err().status.code(), 404);
    let d = project_tasks(5, Some(vec![row(1, Some(5)), row(2, None)])).unwrap();
    assert_eq!(d.items, 2);
    assert_eq!(d.data[0].id, 1);
    assert_eq!(d.data[1].project_id, 5);
    assert_eq!(d.data[1].title, "task 2");
    assert_eq!(project_tasks(5, Some(vec![])).unwrap().items, 0);
    let mut bad = row(3, Some(5));
    bad.created_at = when(2023, 2, 30);
    assert_eq!(project_tasks(5, Some(vec![row(1, Some(5)), bad])).unwrap_err().status.code(), 500);
    assert_eq!(project_tasks(5, None).unwrap_err().body.error, "Database error");
    assert_eq!(project_tasks(5, None).unwrap_err().status.code(), 500);
    assert_eq!(project_tasks_allowed(Lookup::Failed).unwrap_err().status.code(), 500);
}

#[test]
fn deleting_a_task_of_another_user_is_404() {
    let e = task_deleted(Some(0)).unwrap_err();
    assert_eq!(e.status.code(), 404);
    assert_eq!(e.body.error, "Task not found or access denied");
    assert!(task_deleted(Some(1)).is_ok());
    assert_eq!(task_deleted(None).unwrap_err().status.code(), 500);
}

#[test]
fn deleting_a_project() {
    assert_eq!(project_deleted(Some(0)).unwrap_err().status.code(), 404);
    assert!(project_deleted(Some(1)).is_ok());
    assert_eq!(project_deleted(None).unwrap_err().status.code(), 500);
}

#[test]
fn partial_update_of_description_keeps_title_and_project() {
    let existing = row(8, Some(5));
    let update = UpdatedTask { title: None, description: Some("new".to_string()), project_id: None };
    let merged = merge_task_update(&existing, &update);
    assert_eq!(merged.title, "task 8");
    assert_eq!(merged.project_id, Some(5));
    assert_eq!(merged.description, Some("new".to_string()));
    let t = task_updated(&existing, merged, true).unwrap();
    assert_eq!((t.id, t.project_id, t.title.as_str()), (8, 5, "task 8"));
    assert_eq!(t.description.as_deref(), Some("new"));
}

#[test]
fn full_update_replaces_every_field() {
    let existing = row(8, Some(5));
    let update = UpdatedTask { title: Some("t".to_string()), description: None, project_id: Some(6) };
    let merged = merge_task_update(&existing, &update);
    assert_eq!(merged.title, "t");
    assert_eq!(merged.project_id, Some(6));
    assert_eq!(merged.description, Some("old".to_string()));
    assert_eq!(task_updated(&existing, merged, false).unwrap_err().status.code(), 500);
}

#[test]
fn task_update_lookups() {
    assert_eq!(task_to_update(Lookup::Found(row(1, Some(2)))).unwrap().id, 1);
    assert_eq!(task_to_update(Lookup::Missing).unwrap_err().status.code(), 404);
    assert_eq!(task_to_update(Lookup::Failed).unwrap_err().status.code(), 500);
    let moving = UpdatedTask { title: None, description: None, project_id: Some(6) };
    assert_eq!(project_to_check(&moving), Some(6));
    let staying = UpdatedTask { title: Some("t".to_string()), description: None, project_id: None };
    assert_eq!(project_to_check(&staying), None);
    assert!(target_project_exists(Lookup::Found(2)).is_ok());
    assert_eq!(target_project_exists(Lookup::Missing).unwrap_err().body.error, "Project not found");
    assert_eq!(target_project_exists(Lookup::Failed).unwrap_err().status.code(), 500);
}

#[test]
fn task_read_and_create() {
    let t = task_found(4, Lookup::Found(row(1, Some(2)))).unwrap();
    assert_eq!((t.id, t.user_id, t.project_id), (1, 4, 2));
    assert_eq!(task_found(4, Lookup::Found(row(1, None))).unwrap_err().status.code(), 500);
    assert_eq!(task_found(4, Lookup::Missing).unwrap_err().status.code(), 404);
    assert_eq!(task_found(4, Lookup::Failed).unwrap_err().status.code(), 500);
    let nt = NewTask { title: "write".to_string(), description: None };
    let c = task_created(4, 2, &nt, Some(11), when(2024, 5, 1)).unwrap();
    assert_eq!((c.id, c.user_id, c.project_id, c.title.as_str()), (11, 4, 2, "write"));
    let e = task_created(4, 2, &nt, None, when(2024, 5, 1)).unwrap_err();
    assert_eq!(e.body.error, "row not found");
    assert_eq!(e.status.code(), 500);
}

#[test]
fn route_tables() {
    assert_eq!(index(), "Hello, world!");
    let a = auth_routes();
    assert_eq!(a.len(), 2);
    assert_eq!((a[0].method, a[0].path.as_str(), a[0].operation), (Method::Post, "/sign-in", Operation::SignIn));
    assert_eq!(project_routes().len(), 5);
    let t = tasks_routes();
    assert_eq!(t.len(), 4);
    assert_eq!((t[3].method, t[3].path.as_str()), (Method::Delete, "/<task_id>"));
}

#[test]
fn decimal_formatting_matches_display() {
    assert_eq!(format_i64(0), "0");
    assert_eq!(format_i64(17), "17");
    assert_eq!(format_i64(-305), "-305");
    assert_eq!(format_i64(i64::MAX), "9223372036854775807");
    assert_eq!(format_i64(i64::MIN), "-9223372036854775808");
    for n in [1i64, 9, 10, 99, 100, -1, -10, 1234567890] {
        assert_eq!(format_i64(n), n.to_string());
        assert_eq!(parse_i64(&format_i64(n)), Some(n));
    }
}
