use todo_backend::query::{Limit, Order, Param, SortedBy};
use todo_backend::tasks::{
    count_found_rows, delete_task, get_task, get_task_with_lock, get_tasks, insert_task, update_task, UpdateTask,
};
use todo_backend::types::{DateTime, TaskPriority, TaskState, TodoReq};
use todo_backend::update::Update;
use todo_backend::users::{
    count_is_positive, get_user, get_user_from_username, insert_user, is_username_exists, is_valid_id, remove_user,
    update_user, verify_password, UpdateUser,
};

fn id_bytes(p: &Param) -> Vec<u8> {
    match p {
        Param::Bytes(b) => b.clone(),
        _ => panic!("not bytes"),
    }
}

fn text(p: &Param) -> String {
    match p {
        Param::Text(t) => t.clone(),
        _ => panic!("not text"),
    }
}

fn sample_id() -> ulid::Ulid {
    ulid::Ulid(0x0102030405060708090a0b0c0d0e0f10)
}

#[test]
fn empty_task_update_writes_nothing() {
    let u = UpdateTask::default();
    assert!(u.is_nop());
    assert_eq!(u.to_prepared_query(), "");
    assert!(update_task(sample_id(), u).is_none());
}

#[test]
fn task_update_writes_only_assigned_fields() {
    let u = UpdateTask {
        title: Update::Assign("new".to_string()),
        description: Update::Nop,
        state: Update::Assign(TaskState::Done),
        priority: Update::Assign(None),
        due_date: Update::Nop,
    };
    assert!(!u.is_nop());
    assert_eq!(u.to_prepared_query(), "`title` = ?, `state` = ?, `priority` = ?");
    let st = update_task(sample_id(), u).unwrap();
    assert_eq!(st.sql, "UPDATE `todos` SET `title` = ?, `state` = ?, `priority` = ? WHERE `id` = ?;");
    assert_eq!(st.params.len(), 4);
    assert_eq!(text(&st.params[0]), "new");
    assert_eq!(text(&st.params[1]), "done");
    assert!(matches!(st.params[2], Param::Null));
    assert_eq!(id_bytes(&st.params[3]), ulid_to_bytes(sample_id()));
}

fn ulid_to_bytes(id: ulid::Ulid) -> Vec<u8> {
    id.0.to_be_bytes().to_vec()
}

#[test]
fn task_update_due_date_and_priority() {
    let d = DateTime { year: 2025, month: 1, day: 2, hour: 3, minute: 4, second: 5 };
    let u = UpdateTask {
        title: Update::Nop,
        description: Update::Assign("d".to_string()),
        state: Update::Nop,
        priority: Update::Assign(Some(TaskPriority::High)),
        due_date: Update::Assign(Some(d)),
    };
    let st = update_task(sample_id(), u).unwrap();
    assert_eq!(st.sql, "UPDATE `todos` SET `description` = ?, `priority` = ?, `due_date` = ? WHERE `id` = ?;");
    assert_eq!(text(&st.params[1]), "high");
    assert!(matches!(st.params[2], Param::Timestamp(t) if t == d));
}

#[test]
fn listing_statement_defaults() {
    let st = get_tasks(sample_id(), None, None, None, None);
    assert_eq!(
        st.sql,
        "SELECT SQL_CALC_FOUND_ROWS * FROM `todos` WHERE `author_id` = ? ORDER BY `created_at` DESC;"
    );
    assert_eq!(st.params.len(), 1);
    assert_eq!(id_bytes(&st.params[0]), ulid_to_bytes(sample_id()));
    assert_eq!(count_found_rows().sql, "SELECT FOUND_ROWS();");
}

#[test]
fn listing_statement_with_filters() {
    let st = get_tasks(
        sample_id(),
        Some("milk".to_string()),
        Some(Limit::LimitOffset(10, 20)),
        Some(SortedBy::UpdatedAt(Order::Asc)),
        Some(vec![TaskState::Todo, TaskState::InProgress]),
    );
    assert_eq!(
        st.sql,
        "SELECT SQL_CALC_FOUND_ROWS * FROM `todos` WHERE `author_id` = ? AND (`title` LIKE ? OR `description` LIKE ?) AND `state` IN ('todo', 'in-progress') ORDER BY `updated_at` ASC LIMIT ? OFFSET ?;"
    );
    assert_eq!(st.params.len(), 5);
    assert_eq!(text(&st.params[1]), "%milk%");
    assert_eq!(text(&st.params[2]), "%milk%");
    assert!(matches!(st.params[3], Param::Count(10)));
    assert!(matches!(st.params[4], Param::Count(20)));
}

#[test]
fn listing_with_no_state_selects_nothing() {
    let st = get_tasks(sample_id(), None, Some(Limit::Limit(3)), None, Some(vec![]));
    assert_eq!(
        st.sql,
        "SELECT SQL_CALC_FOUND_ROWS * FROM `todos` WHERE `author_id` = ? AND FALSE ORDER BY `created_at` DESC LIMIT ?;"
    );
    assert_eq!(st.params.len(), 2);
}

#[test]
fn single_task_statements() {
    assert_eq!(get_task(sample_id()).sql, "SELECT * FROM `todos` WHERE `id` = ?;");
    assert_eq!(get_task_with_lock(sample_id()).sql, "SELECT * FROM `todos` WHERE `id` = ? FOR UPDATE;");
    let del = delete_task(sample_id());
    assert_eq!(del.sql, "DELETE FROM `todos` WHERE `id` = ?;");
    assert_eq!(id_bytes(&del.params[0]), ulid_to_bytes(sample_id()));
}

#[test]
fn insert_task_statement() {
    let st = insert_task(TodoReq {
        id: vec![1; 16],
        author_id: None,
        title: "t".to_string(),
        description: "d".to_string(),
        state: TaskState::Icebox,
        priority: Some(TaskPriority::Low),
        due_date: None,
    });
    assert!(st.sql.starts_with("INSERT INTO `todos`"));
    assert_eq!(st.params.len(), 7);
    assert_eq!(id_bytes(&st.params[0]), vec![1; 16]);
    assert!(matches!(st.params[1], Param::Null));
    assert_eq!(text(&st.params[4]), "icebox");
    assert_eq!(text(&st.params[5]), "low");
    assert!(matches!(st.params[6], Param::Null));
}

#[test]
fn empty_user_update_writes_nothing() {
    let u = UpdateUser::default();
    assert!(u.is_nop());
    assert!(update_user(sample_id(), u).is_none());
}

#[test]
fn username_only_update_is_written() {
    let u = UpdateUser {
        username: Update::Assign("carol".to_string()),
        display_name: Update::Nop,
        hashed_password: Update::Nop,
    };
    assert!(!u.is_nop());
    let st = update_user(sample_id(), u).unwrap();
    assert_eq!(st.sql, "UPDATE `users` SET `username` = ? WHERE `id` = ? AND `deleted_at` IS NULL;");
    assert_eq!(text(&st.params[0]), "carol");
}

#[test]
fn user_statements() {
    let ex = is_username_exists("alice");
    assert_eq!(ex.sql, "SELECT COUNT(*) FROM `users` WHERE `username` = ?;");
    assert_eq!(text(&ex.params[0]), "alice");
    assert!(count_is_positive(1));
    assert!(!count_is_positive(0));
    let ins = insert_user(Some(sample_id()), "alice", "Alice", b"hash");
    assert_eq!(ins.params.len(), 4);
    assert_eq!(id_bytes(&ins.params[0]), ulid_to_bytes(sample_id()));
    assert_eq!(id_bytes(&ins.params[3]), b"hash".to_vec());
    let fresh = insert_user(None, "alice", "Alice", b"hash");
    assert_eq!(id_bytes(&fresh.params[0]).len(), 16);
    assert_eq!(
        remove_user(sample_id()).sql,
        "UPDATE `users` SET `deleted_at` = NOW(), `username` = NULL WHERE `id` = ?;"
    );
    let vp = verify_password(sample_id(), b"h");
    assert_eq!(vp.params.len(), 2);
    assert_eq!(
        get_user_from_username("alice").sql,
        "SELECT * FROM `users` WHERE `username` = ? AND `deleted_at` IS NULL;"
    );
    assert_eq!(get_user(sample_id()).sql, "SELECT * FROM `users` WHERE `id` = ? AND `deleted_at` IS NULL;");
    assert_eq!(
        is_valid_id(sample_id()).sql,
        "SELECT COUNT(*) FROM `users` WHERE `id` = ? AND `deleted_at` IS NULL;"
    );
}
