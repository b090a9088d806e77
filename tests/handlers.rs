use todo_backend::api::{
    check_credentials, check_task_access, list_tasks, login_outcome, me_response, new_task, page_limit,
    parse_task_id, signup_user, task_responses, task_update, user_update, GetTaskQuery, PostTaskRequest,
    PutTaskRequest, PutUserRequest, SignupRequest, TaskResponse,
};
use todo_backend::auth::{check_password, check_is_logged_in, claimed_user, hash_bytes, hash_password};
use todo_backend::error::ApiError;
use todo_backend::ident::{ulid_to_text, ulid_to_vec};
use todo_backend::query::{Limit, Param};
use todo_backend::types::{DateTime, TaskPriority, TaskState, Todo, User};
use todo_backend::update::Update;
use todo_backend::users::remove_user;

fn user_a() -> ulid::Ulid {
    ulid::Ulid(0x11111111111111111111111111111111)
}

fn user_b() -> ulid::Ulid {
    ulid::Ulid(0x22222222222222222222222222222222)
}

fn stamp() -> DateTime {
    DateTime { year: 2024, month: 5, day: 6, hour: 7, minute: 8, second: 9 }
}

fn row(author: Option<Vec<u8>>) -> Todo {
    Todo {
        id: ulid_to_vec(ulid::Ulid(42)),
        author_id: author,
        title: "x".to_string(),
        description: "".to_string(),
        created_at: stamp(),
        updated_at: stamp(),
        state: TaskState::Todo,
        priority: None,
        due_date: None,
    }
}

fn signup(name: &str, password: &str) -> SignupRequest {
    SignupRequest { username: name.to_string(), display_name: name.to_uppercase(), password: password.to_string() }
}

fn stored_hash(params: &[Param]) -> Vec<u8> {
    match &params[3] {
        Param::Bytes(b) => b.clone(),
        _ => panic!("hash not bound as bytes"),
    }
}

#[test]
fn error_statuses() {
    assert_eq!(ApiError::Validation.status(), 400);
    assert_eq!(ApiError::Unauthorized.status(), 401);
    assert_eq!(ApiError::Forbidden.status(), 403);
    assert_eq!(ApiError::NotFound.status(), 404);
    assert_eq!(ApiError::Conflict.status(), 400);
    assert_eq!(ApiError::Storage.status(), 500);
    assert_eq!(ApiError::Internal.status(), 500);
}

#[test]
fn guard_rejects_missing_malformed_and_removed() {
    assert_eq!(claimed_user(None).err(), Some(ApiError::Unauthorized));
    assert_eq!(claimed_user(Some("not-an-id")).err(), Some(ApiError::Unauthorized));
    let text = ulid_to_text(&user_a());
    let id = claimed_user(Some(&text)).unwrap();
    assert_eq!(id, user_a());
    assert_eq!(check_is_logged_in(id, false).err(), Some(ApiError::Unauthorized));
    assert_eq!(check_is_logged_in(id, true).ok(), Some(user_a()));
}

#[test]
fn credentials_must_not_be_empty() {
    assert_eq!(check_credentials("", "pw"), Err(ApiError::Validation));
    assert_eq!(check_credentials("bob", ""), Err(ApiError::Validation));
    assert_eq!(check_credentials("bob", "pw"), Ok(()));
}

#[test]
fn username_uniqueness_scenario() {
    let (first, claim) = signup_user(signup("alice", "pw"), false, user_a()).ok().unwrap();
    assert_eq!(claim, ulid_to_text(&user_a()));
    assert!(matches!(&first.params[1], Param::Text(t) if t == "alice"));
    assert_eq!(signup_user(signup("alice", "pw"), true, user_b()).err(), Some(ApiError::Conflict));
    let removal = remove_user(user_a());
    assert!(removal.sql.contains("`username` = NULL"));
    assert!(signup_user(signup("alice", "pw"), false, user_b()).is_ok());
    assert_eq!(signup_user(signup("", "pw"), false, user_b()).err(), Some(ApiError::Validation));
}

#[test]
fn password_hash_is_salted_by_identifier() {
    let h = hash_password("pw1", &user_a()).unwrap();
    assert_ne!(h, "pw1");
    assert!(h.starts_with("$2y$12$"));
    assert_eq!(h.len(), 60);
    let again = hash_password("pw1", &user_a()).unwrap();
    assert_eq!(h, again);
    assert_eq!(hash_bytes(&h), h.as_bytes().to_vec());
}

#[test]
fn password_check_faults() {
    assert_eq!(check_password("pw", &[0xff, 0xfe]), Err(ApiError::Internal));
    assert_eq!(check_password("pw", b"not a hash"), Err(ApiError::Internal));
}

#[test]
fn login_outcomes() {
    assert_eq!(login_outcome(&ulid_to_vec(user_a()), false).err(), Some(ApiError::Validation));
    assert_eq!(login_outcome(&[1, 2, 3], true).err(), Some(ApiError::Internal));
    assert_eq!(login_outcome(&ulid_to_vec(user_a()), true).ok(), Some(ulid_to_text(&user_a())));
}

#[test]
fn password_change_scenario() {
    let (st, claim) = signup_user(signup("bob", "pw1"), false, user_a()).ok().unwrap();
    let stored = stored_hash(&st.params);
    assert!(check_password("pw1", &stored).unwrap());
    assert_eq!(login_outcome(&ulid_to_vec(user_a()), true).ok(), Some(claim.clone()));
    let me = me_response(claim.clone(), Some(account(&stored))).ok().unwrap();
    assert_eq!(me.username, "bob");
    let update = user_update(
        PutUserRequest { username: Update::Nop, display_name: Update::Nop, password: Update::Assign("pw2".to_string()) },
        &user_a(),
    )
    .ok()
    .unwrap();
    let new_hash = match update.hashed_password {
        Update::Assign(h) => h,
        Update::Nop => panic!("password not updated"),
    };
    let old_ok = check_password("pw1", &new_hash).unwrap();
    assert!(!old_ok);
    assert_eq!(login_outcome(&ulid_to_vec(user_a()), old_ok).err(), Some(ApiError::Validation));
    let new_ok = check_password("pw2", &new_hash).unwrap();
    assert_eq!(login_outcome(&ulid_to_vec(user_a()), new_ok).ok(), Some(claim));
}

fn account(hash: &[u8]) -> User {
    User {
        id: ulid_to_vec(user_a()),
        username: Some("bob".to_string()),
        display_name: "Bob".to_string(),
        hashed_password: hash.to_vec(),
        created_at: stamp(),
        updated_at: stamp(),
        deleted_at: None,
    }
}

#[test]
fn me_outcomes() {
    assert_eq!(me_response("x".to_string(), None).err(), Some(ApiError::Validation));
    let mut gone = account(b"h");
    gone.username = None;
    assert_eq!(me_response("x".to_string(), Some(gone)).err(), Some(ApiError::Internal));
    let me = me_response("x".to_string(), Some(account(b"h"))).ok().unwrap();
    assert_eq!((me.id.as_str(), me.username.as_str(), me.display_name.as_str()), ("x", "bob", "Bob"));
}

#[test]
fn profile_update_without_password() {
    let u = user_update(
        PutUserRequest { username: Update::Assign("b2".to_string()), display_name: Update::Nop, password: Update::Nop },
        &user_a(),
    )
    .ok()
    .unwrap();
    assert!(matches!(u.username, Update::Assign(ref n) if n == "b2"));
    assert!(u.display_name.is_nop() && u.hashed_password.is_nop());
}

#[test]
fn listing_window() {
    assert_eq!(page_limit(Some(5), Some(10)), Ok(Some(Limit::LimitOffset(5, 10))));
    assert_eq!(page_limit(Some(5), None), Ok(Some(Limit::Limit(5))));
    assert_eq!(page_limit(None, Some(10)), Err(ApiError::Validation));
    assert_eq!(page_limit(None, None), Ok(None));
    let bad = GetTaskQuery { limit: None, offset: Some(1), state: None, priority: None };
    assert_eq!(list_tasks(user_a(), &bad).err(), Some(ApiError::Validation));
    let q = GetTaskQuery { limit: Some(2), offset: None, state: Some(TaskState::Done), priority: None };
    let st = list_tasks(user_a(), &q).ok().unwrap();
    assert_eq!(
        st.sql,
        "SELECT SQL_CALC_FOUND_ROWS * FROM `todos` WHERE `author_id` = ? AND `state` IN ('done') ORDER BY `created_at` DESC LIMIT ?;"
    );
}

#[test]
fn task_response_shows_text_forms() {
    let mut t = row(Some(ulid_to_vec(user_a())));
    t.due_date = Some(DateTime { year: 2025, month: 12, day: 31, hour: 23, minute: 59, second: 59 });
    t.priority = Some(TaskPriority::Medium);
    let r = TaskResponse::try_from(t).ok().unwrap();
    assert_eq!(r.id, ulid_to_text(&ulid::Ulid(42)));
    assert_eq!(r.author_id, ulid_to_text(&user_a()));
    assert_eq!(r.created_at, "2024-05-06 07:08:09");
    assert_eq!(r.due_date.as_deref(), Some("2025-12-31 23:59:59"));
    assert_eq!(r.priority, Some(TaskPriority::Medium));
    assert_eq!(TaskResponse::try_from(row(None)).err().map(|e| e.status()), Some(500));
    let pages = task_responses(vec![row(Some(ulid_to_vec(user_a()))), row(Some(ulid_to_vec(user_b())))]).ok().unwrap();
    assert_eq!(pages.len(), 2);
    assert_eq!(pages[1].author_id, ulid_to_text(&user_b()));
    assert_eq!(task_responses(vec![row(Some(ulid_to_vec(user_a()))), row(None)]).err(), Some(ApiError::Internal));
}

#[test]
fn task_access_scenario() {
    // Unauthenticated: no session claim.
    assert_eq!(claimed_user(None).err().map(|e| e.status()), Some(401));
    // Authenticated as A: the task is created under A.
    let req = PostTaskRequest {
        title: "x".to_string(),
        description: "".to_string(),
        state: TaskState::Todo,
        priority: None,
        due_date: None,
    };
    let task_id = ulid::Ulid(42);
    let todo = new_task(req, task_id, user_a()).ok().unwrap();
    assert_eq!(todo.id, ulid_to_vec(task_id));
    assert_eq!(todo.author_id, Some(ulid_to_vec(user_a())));
    // Read back by B: forbidden; by A: allowed; unknown id: not found.
    let stored = row(todo.author_id.clone());
    assert_eq!(check_task_access(Some(stored.clone()), user_b()).err().map(|e| e.status()), Some(403));
    assert!(check_task_access(Some(stored), user_a()).is_ok());
    assert_eq!(check_task_access(None, user_a()).err(), Some(ApiError::NotFound));
    assert_eq!(check_task_access(Some(row(None)), user_a()).err(), Some(ApiError::Forbidden));
}

#[test]
fn task_ids_and_due_dates() {
    assert_eq!(parse_task_id("bogus").err(), Some(ApiError::Validation));
    let text = ulid_to_text(&user_b());
    assert_eq!(parse_task_id(&text).ok(), Some(user_b()));
    let req = PostTaskRequest {
        title: "x".to_string(),
        description: "".to_string(),
        state: TaskState::Todo,
        priority: Some(TaskPriority::High),
        due_date: Some("2024-13-01 00:00:00".to_string()),
    };
    assert_eq!(new_task(req, user_b(), user_a()).err(), Some(ApiError::Validation));
    let req = PostTaskRequest {
        title: "x".to_string(),
        description: "".to_string(),
        state: TaskState::Todo,
        priority: Some(TaskPriority::High),
        due_date: Some("2024-12-01 10:00:00".to_string()),
    };
    let t = new_task(req, user_b(), user_a()).ok().unwrap();
    assert_eq!(t.due_date, Some(DateTime { year: 2024, month: 12, day: 1, hour: 10, minute: 0, second: 0 }));
}

#[test]
fn task_update_requests() {
    let req = PutTaskRequest {
        title: Update::Nop,
        description: Update::Nop,
        state: Update::Assign(TaskState::InProgress),
        priority: Update::Assign(None),
        due_date: Update::Assign(Some("2024-01-02 03:04:05".to_string())),
    };
    let u = task_update(req).ok().unwrap();
    assert!(matches!(u.state, Update::Assign(TaskState::InProgress)));
    assert!(matches!(u.priority, Update::Assign(None)));
    assert!(matches!(u.due_date, Update::Assign(Some(d)) if d.day == 2 && d.second == 5));
    let cleared = PutTaskRequest {
        title: Update::Nop,
        description: Update::Nop,
        state: Update::Nop,
        priority: Update::Nop,
        due_date: Update::Assign(None),
    };
    assert!(matches!(task_update(cleared).ok().unwrap().due_date, Update::Assign(None)));
    let bad = PutTaskRequest {
        title: Update::Nop,
        description: Update::Nop,
        state: Update::Nop,
        priority: Update::Nop,
        due_date: Update::Assign(Some("2024-01-02".to_string())),
    };
    assert_eq!(task_update(bad).err(), Some(ApiError::Validation));
    let none = PutTaskRequest {
        title: Update::Nop,
        description: Update::Nop,
        state: Update::Nop,
        priority: Update::Nop,
        due_date: Update::Nop,
    };
    assert!(task_update(none).ok().unwrap().is_nop());
}
