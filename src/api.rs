//! The requests and responses of the HTTP surface, and the decisions each
//! handler makes between its calls to the store.
use vstd::prelude::*;
use vstd::utf8::encode_utf8;

use crate::auth::{bcrypt_hash_of, hash_bytes, hash_password};
use crate::error::ApiError;
use crate::ident::{be_bytes, be_value, binary_to_ulid, decode_text, text_to_ulid, ulid_text, ulid_to_binary, ulid_to_text, ulid_to_vec};
use crate::query::{param_views, Limit, Statement};
use crate::tasks::{get_tasks, get_tasks_params, get_tasks_sql, id_param, opt_states, UpdateTask};
use crate::types::{DateTime, TaskPriority, TaskState, Todo, TodoReq, User};
use crate::update::Update;
use crate::users::{insert_user, insert_user_rest, UpdateUser};

verus! {

pub struct SignupRequest {
    pub username: String,
    pub display_name: String,
    pub password: String,
}

pub struct LoginRequest {
    pub username: String,
    pub password: String,
}

pub struct MeResponse {
    pub id: String,
    pub username: String,
    pub display_name: String,
}

/// A partial update of the caller's account; an absent field is `Nop`.
pub struct PutUserRequest {
    pub username: Update<String>,
    pub display_name: Update<String>,
    pub password: Update<String>,
}

/// A task as the API shows it: identifiers and timestamps as text.
pub struct TaskResponse {
    pub id: String,
    pub author_id: String,
    pub title: String,
    pub description: String,
    pub created_at: String,
    pub updated_at: String,
    pub state: TaskState,
    pub priority: Option<TaskPriority>,
    pub due_date: Option<String>,
}

/// The query of a listing of the caller's tasks.
pub struct GetTaskQuery {
    pub limit: Option<usize>,
    pub offset: Option<usize>,
    pub state: Option<TaskState>,
    pub priority: Option<TaskPriority>,
}

pub struct PostTaskRequest {
    pub title: String,
    pub description: String,
    pub state: TaskState,
    pub priority: Option<TaskPriority>,
    pub due_date: Option<String>,
}

/// A partial update of a task; an absent field is `Nop`, and an explicit
/// null clears `priority` or `due_date`.
pub struct PutTaskRequest {
    pub title: Update<String>,
    pub description: Update<String>,
    pub state: Update<TaskState>,
    pub priority: Update<Option<TaskPriority>>,
    pub due_date: Update<Option<String>>,
}

/// Signup and login need a username and a password.
pub fn check_credentials(username: &str, password: &str) -> (r: Result<(), ApiError>)
    ensures
        r is Ok <==> username@.len() > 0 && password@.len() > 0,
        r matches Err(e) ==> e == ApiError::Validation,
{
    if username.is_empty() || password.is_empty() {
        Err(ApiError::Validation)
    } else {
        Ok(())
    }
}

/// Signup, once the store has said whether the username is taken and a
/// fresh identifier `id` has been drawn: the statement that creates the
/// account, with the password hashed under `id`, and the session claim
/// that logs the new user in.
pub fn signup_user(req: SignupRequest, username_taken: bool, id: ulid::Ulid) -> (r: Result<(Statement, String), ApiError>)
    ensures
        (req.username@.len() == 0 || req.password@.len() == 0) ==> r == Err::<(Statement, String), ApiError>(ApiError::Validation),
        (req.username@.len() > 0 && req.password@.len() > 0 && username_taken) ==> r == Err::<(Statement, String), ApiError>(ApiError::Conflict),
        (req.username@.len() > 0 && req.password@.len() > 0 && !username_taken) ==> (r matches Ok((st, claim)) && {
            &&& claim@ == ulid_text(id.0)
            &&& st.sql@ == "INSERT INTO `users` (`id`, `username`, `display_name`, `hashed_password`) VALUES (?, ?, ?, ?);"@
            &&& param_views(st.params@).len() == 4
            &&& param_views(st.params@)[0] == id_param(id)
            &&& param_views(st.params@).subrange(1, 4) == insert_user_rest(req.username@, req.display_name@,
                    encode_utf8(bcrypt_hash_of(req.password@, be_bytes(id.0 as nat, 16))))
        }),
{
    if let Err(e) = check_credentials(req.username.as_str(), req.password.as_str()) {
        return Err(e);
    }
    if username_taken {
        return Err(ApiError::Conflict);
    }
    let hashed = match hash_password(req.password.as_str(), &id) {
        Ok(h) => h,
        Err(e) => return Err(e),
    };
    let bytes = hash_bytes(hashed.as_str());
    let st = insert_user(Some(id), req.username.as_str(), req.display_name.as_str(), bytes.as_slice());
    Ok((st, ulid_to_text(&id)))
}

/// Login, once the password has been checked against the account found
/// under the username: a wrong password is bad input; otherwise the
/// session claim is the account's identifier as text.
pub fn login_outcome(user_id: &[u8], password_matches: bool) -> (r: Result<String, ApiError>)
    ensures
        !password_matches ==> r == Err::<String, ApiError>(ApiError::Validation),
        password_matches && user_id@.len() != 16 ==> r == Err::<String, ApiError>(ApiError::Internal),
        password_matches && user_id@.len() == 16 ==> (r matches Ok(claim)
            && claim@ == ulid_text(be_value(user_id@) as u128)),
{
    if !password_matches {
        return Err(ApiError::Validation);
    }
    match binary_to_ulid(user_id) {
        Ok(id) => Ok(ulid_to_text(&id)),
        Err(_) => Err(ApiError::Internal),
    }
}

/// What `GET /me` answers for the account `id` read from the store: the
/// account gone is bad input (the session is then purged), an account
/// without a username a server fault.
pub fn me_response(id: String, user: Option<User>) -> (r: Result<MeResponse, ApiError>)
    ensures
        user is None ==> r == Err::<MeResponse, ApiError>(ApiError::Validation),
        user matches Some(u) ==> match u.username {
            None => r == Err::<MeResponse, ApiError>(ApiError::Internal),
            Some(name) => r matches Ok(m) && m.id@ == id@ && m.username@ == name@
                && m.display_name@ == u.display_name@,
        },
{
    match user {
        None => Err(ApiError::Validation),
        Some(u) => match u.username {
            None => Err(ApiError::Internal),
            Some(name) => Ok(MeResponse { id, username: name, display_name: u.display_name }),
        },
    }
}

/// The account update that `PATCH /me` asks for: a new password is stored
/// hashed under the account's identifier.
pub fn user_update(req: PutUserRequest, user: &ulid::Ulid) -> (r: Result<UpdateUser, ApiError>)
    ensures
        r matches Ok(u) && {
            &&& u.username == req.username
            &&& u.display_name == req.display_name
            &&& match req.password {
                Update::Nop => u.hashed_password is Nop,
                Update::Assign(p) => u.hashed_password matches Update::Assign(h)
                    && h@ == encode_utf8(bcrypt_hash_of(p@, be_bytes(user.0 as nat, 16))),
            }
        },
{
    let hashed_password = match req.password {
        Update::Nop => Update::Nop,
        Update::Assign(p) => match hash_password(p.as_str(), user) {
            Ok(h) => Update::Assign(hash_bytes(h.as_str())),
            Err(e) => return Err(e),
        },
    };
    Ok(UpdateUser { username: req.username, display_name: req.display_name, hashed_password })
}

/// The window of a listing: an offset without a limit is bad input.
pub fn page_limit(limit: Option<usize>, offset: Option<usize>) -> (r: Result<Option<Limit>, ApiError>)
    ensures
        r == match (limit, offset) {
            (Some(l), Some(o)) => Ok::<Option<Limit>, ApiError>(Some(Limit::LimitOffset(l, o))),
            (Some(l), None) => Ok(Some(Limit::Limit(l))),
            (None, Some(_)) => Err(ApiError::Validation),
            (None, None) => Ok(None),
        },
{
    match (limit, offset) {
        (Some(l), Some(o)) => Ok(Some(Limit::LimitOffset(l, o))),
        (Some(l), None) => Ok(Some(Limit::Limit(l))),
        (None, Some(_)) => Err(ApiError::Validation),
        (None, None) => Ok(None),
    }
}

/// The state filter of a listing query: the one state asked for, if any.
pub open spec fn query_states(state: Option<TaskState>) -> Option<Seq<TaskState>> {
    match state {
        Some(s) => Some(seq![s]),
        None => None,
    }
}

/// The statement that lists the caller's tasks as `query` asks, newest
/// first.
pub fn list_tasks(author: ulid::Ulid, query: &GetTaskQuery) -> (r: Result<Statement, ApiError>)
    ensures
        (query.limit is None && query.offset is Some) <==> r is Err,
        r matches Err(e) ==> e == ApiError::Validation,
        r matches Ok(st) ==> match page_limit_spec(query.limit, query.offset) {
            Some(l) => st.sql@ == get_tasks_sql(None, l, None, query_states(query.state))
                && param_views(st.params@) == get_tasks_params(author, None, l),
            None => false,
        },
{
    let limit = match page_limit(query.limit, query.offset) {
        Ok(l) => l,
        Err(e) => return Err(e),
    };
    let states = match query.state {
        Some(s) => Some(vec![s]),
        None => None,
    };
    let ghost sv = opt_states(states);
    proof {
        if query.state is Some {
            assert(sv.unwrap() =~= seq![query.state.unwrap()]);
        }
    }
    Ok(get_tasks(author, None, limit, None, states))
}

/// The window that `page_limit` yields, `None` standing for its error.
pub open spec fn page_limit_spec(limit: Option<usize>, offset: Option<usize>) -> Option<Option<Limit>> {
    match (limit, offset) {
        (Some(l), Some(o)) => Some(Some(Limit::LimitOffset(l, o))),
        (Some(l), None) => Some(Some(Limit::Limit(l))),
        (None, Some(_)) => None,
        (None, None) => Some(None),
    }
}

/// Whether a task row can be shown: identifiers of 16 bytes, an author, and
/// valid timestamps.
pub open spec fn showable(t: Todo) -> bool {
    &&& t.id@.len() == 16
    &&& t.author_id matches Some(a) && a@.len() == 16
    &&& t.created_at.wf()
    &&& t.updated_at.wf()
    &&& t.due_date matches Some(d) ==> d.wf()
}

/// How a response shows a task row.
pub open spec fn shows(r: TaskResponse, t: Todo) -> bool {
    &&& r.id@ == ulid_text(be_value(t.id@) as u128)
    &&& r.author_id@ == ulid_text(be_value(t.author_id.unwrap()@) as u128)
    &&& r.title@ == t.title@
    &&& r.description@ == t.description@
    &&& r.created_at@ == t.created_at.text()
    &&& r.updated_at@ == t.updated_at.text()
    &&& r.state == t.state
    &&& r.priority == t.priority
    &&& match t.due_date {
        Some(d) => r.due_date matches Some(s) && s@ == d.text(),
        None => r.due_date is None,
    }
}

impl TaskResponse {
    /// Shows a task row; a row that cannot be shown is a server fault.
    pub fn try_from(value: Todo) -> (r: Result<TaskResponse, ApiError>)
        ensures
            r is Ok <==> showable(value),
            r matches Ok(resp) ==> shows(resp, value),
            r matches Err(e) ==> e == ApiError::Internal,
    {
        let ghost v = value;
        let id = match binary_to_ulid(value.id.as_slice()) {
            Ok(id) => id,
            Err(_) => return Err(ApiError::Internal),
        };
        let author = match value.author_id {
            Some(a) => match binary_to_ulid(a.as_slice()) {
                Ok(a) => a,
                Err(_) => return Err(ApiError::Internal),
            },
            None => return Err(ApiError::Internal),
        };
        if !value.created_at.is_valid() || !value.updated_at.is_valid() {
            return Err(ApiError::Internal);
        }
        let due_date = match value.due_date {
            Some(d) => {
                if !d.is_valid() {
                    return Err(ApiError::Internal);
                }
                Some(d.format())
            },
            None => None,
        };
        Ok(TaskResponse {
            id: ulid_to_text(&id),
            author_id: ulid_to_text(&author),
            title: value.title,
            description: value.description,
            created_at: value.created_at.format(),
            updated_at: value.updated_at.format(),
            state: value.state,
            priority: value.priority,
            due_date,
        })
    }
}

/// Shows every row of a page, in order; one row that cannot be shown fails
/// the whole page.
pub fn task_responses(rows: Vec<Todo>) -> (r: Result<Vec<TaskResponse>, ApiError>)
    ensures
        r is Ok <==> forall|i: int| 0 <= i < rows@.len() ==> showable(#[trigger] rows@[i]),
        r matches Ok(items) ==> items@.len() == rows@.len()
            && forall|i: int| 0 <= i < rows@.len() ==> shows(#[trigger] items@[i], rows@[i]),
        r matches Err(e) ==> e == ApiError::Internal,
{
    let ghost all = rows@;
    let mut items: Vec<TaskResponse> = Vec::new();
    let mut rest = rows;
    let mut i: usize = 0;
    let n = rest.len();
    while i < n
        invariant
            n == all.len(),
            all == rows@,
            i <= n,
            rest@ == all.subrange(i as int, n as int),
            items@.len() == i,
            forall|k: int| 0 <= k < i ==> showable(#[trigger] all[k]),
            forall|k: int| 0 <= k < i ==> shows(#[trigger] items@[k], all[k]),
        decreases n - i,
    {
        let row = rest.remove(0);
        assert(row == all[i as int]);
        assert(rest@ =~= all.subrange(i + 1, n as int));
        match TaskResponse::try_from(row) {
            Ok(resp) => items.push(resp),
            Err(e) => {
                assert(!showable(all[i as int]));
                return Err(e);
            },
        }
        i = i + 1;
    }
    Ok(items)
}

/// Reads a task identifier from a path; a malformed one is bad input.
pub fn parse_task_id(text: &str) -> (r: Result<ulid::Ulid, ApiError>)
    ensures
        match decode_text(text@) {
            Some(v) => r matches Ok(id) && id.0 == v,
            None => r == Err::<ulid::Ulid, ApiError>(ApiError::Validation),
        },
{
    match text_to_ulid(text) {
        Ok(id) => Ok(id),
        Err(_) => Err(ApiError::Validation),
    }
}

/// Whether a task's author is `user`.
pub open spec fn owned_by(author_id: Option<Vec<u8>>, user: ulid::Ulid) -> bool {
    author_id matches Some(a) && a@ == be_bytes(user.0 as nat, 16)
}

/// Whether the author column holds the binary form of `user`.
pub fn is_owner(author_id: &Option<Vec<u8>>, user: ulid::Ulid) -> (r: bool)
    ensures
        r == owned_by(*author_id, user),
{
    match author_id {
        None => false,
        Some(a) => {
            let bytes = ulid_to_binary(user);
            if a.len() != 16 {
                return false;
            }
            let mut i: usize = 0;
            while i < 16
                invariant
                    i <= 16,
                    a@.len() == 16,
                    bytes@ == be_bytes(user.0 as nat, 16),
                    *author_id == Some(*a),
                    forall|k: int| 0 <= k < i ==> a@[k] == bytes@[k],
                decreases 16 - i,
            {
                if a[i] != bytes[i] {
                    assert(a@[i as int] != bytes@[i as int]);
                    assert(a@ != bytes@);
                    return false;
                }
                i = i + 1;
            }
            assert(a@ =~= bytes@);
            true
        },
    }
}

/// The access check of every task-scoped request, given the row read under
/// the task's identifier: no row is not found; a row of another author is
/// forbidden; otherwise the row is handed on.
pub fn check_task_access(task: Option<Todo>, user: ulid::Ulid) -> (r: Result<Todo, ApiError>)
    ensures
        task is None ==> r == Err::<Todo, ApiError>(ApiError::NotFound),
        task matches Some(t) ==> (if owned_by(t.author_id, user) {
            r == Ok::<Todo, ApiError>(t)
        } else {
            r == Err::<Todo, ApiError>(ApiError::Forbidden)
        }),
{
    match task {
        None => Err(ApiError::NotFound),
        Some(t) => {
            if is_owner(&t.author_id, user) {
                Ok(t)
            } else {
                Err(ApiError::Forbidden)
            }
        },
    }
}

/// Reads an optional due date; text that is no timestamp is bad input.
pub fn parse_due_date(due_date: Option<String>) -> (r: Result<Option<DateTime>, ApiError>)
    ensures
        due_date is None ==> r == Ok::<Option<DateTime>, ApiError>(None),
        due_date matches Some(s) ==> match DateTime::parse_spec(s@) {
            Some(d) => r == Ok::<Option<DateTime>, ApiError>(Some(d)),
            None => r == Err::<Option<DateTime>, ApiError>(ApiError::Validation),
        },
{
    match due_date {
        None => Ok(None),
        Some(s) => match DateTime::parse(s.as_str()) {
            Some(d) => Ok(Some(d)),
            None => Err(ApiError::Validation),
        },
    }
}

/// The row that `POST /tasks/` inserts: a fresh identifier `id`, owned by
/// the caller.
pub fn new_task(req: PostTaskRequest, id: ulid::Ulid, author: ulid::Ulid) -> (r: Result<TodoReq, ApiError>)
    ensures
        r is Err <==> (req.due_date matches Some(s) && DateTime::parse_spec(s@) is None),
        r matches Err(e) ==> e == ApiError::Validation,
        r matches Ok(t) ==> {
            &&& t.id@ == be_bytes(id.0 as nat, 16)
            &&& owned_by(t.author_id, author)
            &&& t.title == req.title
            &&& t.description == req.description
            &&& t.state == req.state
            &&& t.priority == req.priority
            &&& t.due_date == match req.due_date {
                Some(s) => DateTime::parse_spec(s@),
                None => None,
            }
        },
{
    let due_date = match parse_due_date(req.due_date) {
        Ok(d) => d,
        Err(e) => return Err(e),
    };
    Ok(TodoReq {
        id: ulid_to_vec(id),
        author_id: Some(ulid_to_vec(author)),
        title: req.title,
        description: req.description,
        state: req.state,
        priority: req.priority,
        due_date,
    })
}

/// The task update that `PUT /tasks/{id}` asks for; a due date that is no
/// timestamp is bad input.
pub fn task_update(req: PutTaskRequest) -> (r: Result<UpdateTask, ApiError>)
    ensures
        r is Err <==> (req.due_date matches Update::Assign(Some(s)) && DateTime::parse_spec(s@) is None),
        r matches Err(e) ==> e == ApiError::Validation,
        r matches Ok(u) ==> {
            &&& u.title == req.title
            &&& u.description == req.description
            &&& u.state == req.state
            &&& u.priority == req.priority
            &&& u.due_date == match req.due_date {
                Update::Nop => Update::Nop,
                Update::Assign(None) => Update::Assign(None),
                Update::Assign(Some(s)) => Update::Assign(DateTime::parse_spec(s@)),
            }
        },
{
    let parsed = req.due_date.map(|d: Option<String>| -> (r: Result<Option<DateTime>, ApiError>)
        ensures
            d is None ==> r == Ok::<Option<DateTime>, ApiError>(None),
            d matches Some(s) ==> match DateTime::parse_spec(s@) {
                Some(t) => r == Ok::<Option<DateTime>, ApiError>(Some(t)),
                None => r == Err::<Option<DateTime>, ApiError>(ApiError::Validation),
            },
        { parse_due_date(d) });
    let due_date = match parsed.transpose() {
        Ok(d) => d,
        Err(e) => return Err(e),
    };
    Ok(UpdateTask {
        title: req.title,
        description: req.description,
        state: req.state,
        priority: req.priority,
        due_date,
    })
}

} // verus!
