//! The task repository: the statements that read and write task rows, and
//! the partial update of a task.
use vstd::prelude::*;

use crate::ident::{be_bytes, ulid_to_vec};
use crate::query::{param_views, push_param, Limit, Order, Param, ParamView, SortedBy, Statement};
use crate::text::{join, join_strings, views};
use crate::types::{DateTime, TaskPriority, TaskState, TodoReq};
use crate::update::{assignment, Update};

verus! {

/// The bound form of an identifier: its 16 bytes.
pub open spec fn id_param(id: ulid::Ulid) -> ParamView {
    ParamView::Bytes(be_bytes(id.0 as nat, 16))
}

/// Binds an identifier as its 16-byte binary form.
pub fn id_to_param(id: ulid::Ulid) -> (r: Param)
    ensures
        r@ == id_param(id),
{
    Param::Bytes(ulid_to_vec(id))
}

/// The column, once, when the field is assigned.
pub open spec fn column_if<T>(u: Update<T>, column: Seq<char>) -> Seq<Seq<char>> {
    if u is Assign { seq![column] } else { Seq::empty() }
}

/// The bound form of a state.
pub open spec fn state_param(s: TaskState) -> ParamView {
    ParamView::Text(s.name())
}

/// The bound form of a nullable priority.
pub open spec fn priority_param(p: Option<TaskPriority>) -> ParamView {
    match p {
        Some(p) => ParamView::Text(p.name()),
        None => ParamView::Null,
    }
}

/// The bound form of a nullable timestamp.
pub open spec fn timestamp_param(d: Option<DateTime>) -> ParamView {
    match d {
        Some(d) => ParamView::Timestamp(d),
        None => ParamView::Null,
    }
}

fn state_to_param(s: TaskState) -> (r: Param)
    ensures
        r@ == state_param(s),
{
    Param::Text(s.to_string())
}

fn priority_to_param(p: Option<TaskPriority>) -> (r: Param)
    ensures
        r@ == priority_param(p),
{
    match p {
        Some(p) => Param::Text(p.to_string()),
        None => Param::Null,
    }
}

fn timestamp_to_param(d: Option<DateTime>) -> (r: Param)
    ensures
        r@ == timestamp_param(d),
{
    match d {
        Some(d) => Param::Timestamp(d),
        None => Param::Null,
    }
}

/// A partial update of a task. Each field is left alone or replaced; for
/// `priority` and `due_date`, `Assign(None)` clears the column to null.
pub struct UpdateTask {
    pub title: Update<String>,
    pub description: Update<String>,
    pub state: Update<TaskState>,
    pub priority: Update<Option<TaskPriority>>,
    pub due_date: Update<Option<DateTime>>,
}

impl Default for UpdateTask {
    fn default() -> (r: Self)
        ensures
            r.columns().len() == 0,
    {
        UpdateTask {
            title: Update::Nop,
            description: Update::Nop,
            state: Update::Nop,
            priority: Update::Nop,
            due_date: Update::Nop,
        }
    }
}

impl UpdateTask {
    /// The columns that the update writes, in the fixed order of the fields.
    pub open spec fn columns(&self) -> Seq<Seq<char>> {
        column_if(self.title, "title"@) + column_if(self.description, "description"@)
            + column_if(self.state, "state"@) + column_if(self.priority, "priority"@)
            + column_if(self.due_date, "due_date"@)
    }

    /// The values that the update writes, in the order of `columns`.
    pub open spec fn params(&self) -> Seq<ParamView> {
        (match self.title {
            Update::Assign(t) => seq![ParamView::Text(t@)],
            Update::Nop => Seq::empty(),
        }) + (match self.description {
            Update::Assign(d) => seq![ParamView::Text(d@)],
            Update::Nop => Seq::empty(),
        }) + (match self.state {
            Update::Assign(s) => seq![state_param(s)],
            Update::Nop => Seq::empty(),
        }) + (match self.priority {
            Update::Assign(p) => seq![priority_param(p)],
            Update::Nop => Seq::empty(),
        }) + (match self.due_date {
            Update::Assign(d) => seq![timestamp_param(d)],
            Update::Nop => Seq::empty(),
        })
    }

    /// The `SET` list: one assignment per written column, joined by ", ".
    pub open spec fn set_list(&self) -> Seq<char> {
        join(self.columns().map_values(|c: Seq<char>| assignment(c)), ", "@)
    }

    /// The assignments of the written columns, joined by ", ".
    pub fn to_prepared_query(&self) -> (r: String)
        ensures
            r@ == self.set_list(),
    {
        let mut query: Vec<String> = Vec::new();
        let ghost mut cols: Seq<Seq<char>> = Seq::empty();
        if let Some(q) = self.title.to_prepared_query("title") {
            query.push(q);
        }
        proof { cols = column_if(self.title, "title"@); }
        assert(views(query@) =~= cols.map_values(|c: Seq<char>| assignment(c)));
        if let Some(q) = self.description.to_prepared_query("description") {
            query.push(q);
        }
        proof { cols = cols + column_if(self.description, "description"@); }
        assert(views(query@) =~= cols.map_values(|c: Seq<char>| assignment(c)));
        if let Some(q) = self.state.to_prepared_query("state") {
            query.push(q);
        }
        proof { cols = cols + column_if(self.state, "state"@); }
        assert(views(query@) =~= cols.map_values(|c: Seq<char>| assignment(c)));
        if let Some(q) = self.priority.to_prepared_query("priority") {
            query.push(q);
        }
        proof { cols = cols + column_if(self.priority, "priority"@); }
        assert(views(query@) =~= cols.map_values(|c: Seq<char>| assignment(c)));
        if let Some(q) = self.due_date.to_prepared_query("due_date") {
            query.push(q);
        }
        proof { cols = cols + column_if(self.due_date, "due_date"@); }
        assert(views(query@) =~= cols.map_values(|c: Seq<char>| assignment(c)));
        join_strings(&query, ", ")
    }

    /// Appends the written values to `params`, in the order of the columns.
    pub fn bind_query(self, params: &mut Vec<Param>)
        ensures
            param_views(final(params)@) == param_views(old(params)@) + self.params(),
    {
        let ghost start = param_views(params@);
        let ghost this = self;
        if let Update::Assign(t) = self.title {
            push_param(params, Param::Text(t));
        }
        if let Update::Assign(d) = self.description {
            push_param(params, Param::Text(d));
        }
        if let Update::Assign(s) = self.state {
            push_param(params, state_to_param(s));
        }
        if let Update::Assign(p) = self.priority {
            push_param(params, priority_to_param(p));
        }
        if let Update::Assign(d) = self.due_date {
            push_param(params, timestamp_to_param(d));
        }
        assert(param_views(params@) =~= start + this.params());
    }

    /// Whether the update writes no column.
    pub fn is_nop(&self) -> (r: bool)
        ensures
            r == (self.columns().len() == 0),
    {
        self.title.is_nop() && self.description.is_nop() && self.state.is_nop()
            && self.priority.is_nop() && self.due_date.is_nop()
    }
}

/// The text of the single statement that applies a non-empty update.
pub open spec fn update_task_sql(u: UpdateTask) -> Seq<char> {
    "UPDATE `todos` SET "@ + u.set_list() + " WHERE `id` = ?;"@
}

/// The statement that applies `update` to the task `id`, or `None` when the
/// update writes no column: then nothing is to be executed at all.
pub fn update_task(id: ulid::Ulid, update: UpdateTask) -> (r: Option<Statement>)
    ensures
        r is None <==> update.columns().len() == 0,
        r matches Some(st) ==> {
            &&& st.sql@ == update_task_sql(update)
            &&& param_views(st.params@) == update.params().push(id_param(id))
        },
{
    if update.is_nop() {
        return None;
    }
    let sql = String::from_str("UPDATE `todos` SET ").concat(update.to_prepared_query().as_str())
        .concat(" WHERE `id` = ?;");
    let mut params: Vec<Param> = Vec::new();
    let ghost u = update;
    update.bind_query(&mut params);
    push_param(&mut params, id_to_param(id));
    assert(param_views(Seq::<Param>::empty()) =~= Seq::<ParamView>::empty());
    assert(Seq::<ParamView>::empty() + u.params() =~= u.params());
    Some(Statement { sql, params })
}

/// A field left out of a partial update is never written: its column is
/// absent from the `SET` list, an assigned field's column is present, and
/// an update with no assigned field yields no statement at all.
pub proof fn lemma_unset_fields_not_written(u: UpdateTask)
    ensures
        u.title is Nop <==> !u.columns().contains("title"@),
        u.description is Nop <==> !u.columns().contains("description"@),
        u.state is Nop <==> !u.columns().contains("state"@),
        u.priority is Nop <==> !u.columns().contains("priority"@),
        u.due_date is Nop <==> !u.columns().contains("due_date"@),
        (u.columns().len() == 0) <==> (u.title is Nop && u.description is Nop && u.state is Nop
            && u.priority is Nop && u.due_date is Nop),
{
    reveal_strlit("title");
    reveal_strlit("description");
    reveal_strlit("state");
    reveal_strlit("priority");
    reveal_strlit("due_date");
    assert("title"@ != "description"@) by { assert("title"@[0] != "description"@[0]); }
    assert("title"@ != "state"@) by { assert("title"@[0] != "state"@[0]); }
    assert("title"@ != "priority"@) by { assert("title"@[0] != "priority"@[0]); }
    assert("title"@ != "due_date"@) by { assert("title"@[0] != "due_date"@[0]); }
    assert("description"@ != "state"@) by { assert("description"@[0] != "state"@[0]); }
    assert("description"@ != "priority"@) by { assert("description"@[0] != "priority"@[0]); }
    assert("description"@ != "due_date"@) by { assert("description"@[1] != "due_date"@[1]); }
    assert("state"@ != "priority"@) by { assert("state"@[0] != "priority"@[0]); }
    assert("state"@ != "due_date"@) by { assert("state"@[0] != "due_date"@[0]); }
    assert("priority"@ != "due_date"@) by { assert("priority"@[0] != "due_date"@[0]); }
    let t = column_if(u.title, "title"@);
    let d = column_if(u.description, "description"@);
    let st = column_if(u.state, "state"@);
    let p = column_if(u.priority, "priority"@);
    let dd = column_if(u.due_date, "due_date"@);
    lemma_column_if_contains(u.title, "title"@);
    lemma_column_if_contains(u.description, "description"@);
    lemma_column_if_contains(u.state, "state"@);
    lemma_column_if_contains(u.priority, "priority"@);
    lemma_column_if_contains(u.due_date, "due_date"@);
    assert forall|x: Seq<char>| u.columns().contains(x) <==>
        (t.contains(x) || d.contains(x) || st.contains(x) || p.contains(x) || dd.contains(x)) by {
        lemma_add_contains(t, d, x);
        lemma_add_contains(t + d, st, x);
        lemma_add_contains(t + d + st, p, x);
        lemma_add_contains(t + d + st + p, dd, x);
    }
    assert(u.columns().contains("title"@) == t.contains("title"@));
    assert(u.columns().contains("description"@) == d.contains("description"@));
    assert(u.columns().contains("state"@) == st.contains("state"@));
    assert(u.columns().contains("priority"@) == p.contains("priority"@));
    assert(u.columns().contains("due_date"@) == dd.contains("due_date"@));
}

proof fn lemma_add_contains(a: Seq<Seq<char>>, b: Seq<Seq<char>>, x: Seq<char>)
    ensures
        (a + b).contains(x) <==> (a.contains(x) || b.contains(x)),
{
    if (a + b).contains(x) {
        let i = choose|i: int| 0 <= i < (a + b).len() && (a + b)[i] == x;
        if i < a.len() {
            assert(a[i] == x);
        } else {
            assert(b[i - a.len()] == x);
        }
    }
    if a.contains(x) {
        let i = choose|i: int| 0 <= i < a.len() && a[i] == x;
        assert((a + b)[i] == x);
    }
    if b.contains(x) {
        let i = choose|i: int| 0 <= i < b.len() && b[i] == x;
        assert((a + b)[i + a.len()] == x);
    }
}

proof fn lemma_column_if_contains<T>(u: Update<T>, column: Seq<char>)
    ensures
        forall|x: Seq<char>| #[trigger] column_if(u, column).contains(x) <==> (u is Assign && x == column),
{
    if u is Assign {
        assert(column_if(u, column)[0] == column);
    }
}

/// The quoted name of a state, as it stands in an `IN` list.
pub open spec fn quoted_state(t: TaskState) -> Seq<char> {
    "'"@ + t.name() + "'"@
}

/// The text that a search phrase is matched with: any text containing it.
pub open spec fn like_pattern(phrase: Seq<char>) -> Seq<char> {
    "%"@ + phrase + "%"@
}

/// The phrase condition of a listing.
pub open spec fn phrase_sql(phrase: Option<Seq<char>>) -> Seq<char> {
    if phrase is Some { " AND (`title` LIKE ? OR `description` LIKE ?)"@ } else { Seq::empty() }
}

/// The state condition of a listing; membership in no state holds of no row.
pub open spec fn state_filter_sql(filter: Option<Seq<TaskState>>) -> Seq<char> {
    match filter {
        None => Seq::empty(),
        Some(states) => if states.len() == 0 {
            " AND FALSE"@
        } else {
            " AND `state` IN ("@ + join(states.map_values(|t: TaskState| quoted_state(t)), ", "@) + ")"@
        },
    }
}

/// The window clause of a listing.
pub open spec fn limit_sql(limit: Option<Limit>) -> Seq<char> {
    match limit {
        Some(l) => " "@ + l.prepared(),
        None => Seq::empty(),
    }
}

/// The order of a listing when none is asked for: newest first.
pub open spec fn effective_sort(sorted_by: Option<SortedBy>) -> SortedBy {
    match sorted_by {
        Some(s) => s,
        None => SortedBy::CreatedAt(Order::Desc),
    }
}

/// The text of the listing statement.
pub open spec fn get_tasks_sql(
    phrase: Option<Seq<char>>,
    limit: Option<Limit>,
    sorted_by: Option<SortedBy>,
    state_filter: Option<Seq<TaskState>>,
) -> Seq<char> {
    "SELECT SQL_CALC_FOUND_ROWS * FROM `todos` WHERE `author_id` = ?"@ + phrase_sql(phrase)
        + state_filter_sql(state_filter) + " "@ + effective_sort(sorted_by).clause()
        + limit_sql(limit) + ";"@
}

/// The parameters of the listing statement: the author first.
pub open spec fn get_tasks_params(author_id: ulid::Ulid, phrase: Option<Seq<char>>, limit: Option<Limit>) -> Seq<ParamView> {
    seq![id_param(author_id)] + (match phrase {
        Some(p) => seq![ParamView::Text(like_pattern(p)), ParamView::Text(like_pattern(p))],
        None => Seq::empty(),
    }) + (match limit {
        Some(l) => l.bound(),
        None => Seq::empty(),
    })
}

/// The view of an optional text.
pub open spec fn opt_text(s: Option<String>) -> Option<Seq<char>> {
    match s {
        Some(t) => Some(t@),
        None => None,
    }
}

/// The view of an optional list of states.
pub open spec fn opt_states(s: Option<Vec<TaskState>>) -> Option<Seq<TaskState>> {
    match s {
        Some(v) => Some(v@),
        None => None,
    }
}

fn in_list(states: &Vec<TaskState>) -> (r: String)
    ensures
        r@ == join(states@.map_values(|t: TaskState| quoted_state(t)), ", "@),
{
    let mut parts: Vec<String> = Vec::new();
    let mut i: usize = 0;
    while i < states.len()
        invariant
            i <= states@.len(),
            parts@.len() == i,
            forall|k: int| 0 <= k < i ==> (#[trigger] parts@[k])@ == quoted_state(states@[k]),
        decreases states@.len() - i,
    {
        let q = String::from_str("'").concat(states[i].to_string().as_str()).concat("'");
        parts.push(q);
        i = i + 1;
    }
    assert(views(parts@) =~= states@.map_values(|t: TaskState| quoted_state(t)));
    join_strings(&parts, ", ")
}

/// The page of the author's tasks that match the filters, in the asked
/// order (newest first by default). Only rows of `author_id` are selected;
/// the phrase matches title or description as a substring; the state
/// filter keeps rows whose state is listed. The statement asks the store
/// to count all matching rows, which `count_found_rows` then reads.
pub fn get_tasks(
    author_id: ulid::Ulid,
    phrase: Option<String>,
    limit: Option<Limit>,
    sorted_by: Option<SortedBy>,
    state_filter: Option<Vec<TaskState>>,
) -> (r: Statement)
    ensures
        r.sql@ == get_tasks_sql(
            opt_text(phrase),
            limit,
            sorted_by,
            opt_states(state_filter),
        ),
        param_views(r.params@) == get_tasks_params(
            author_id,
            opt_text(phrase),
            limit,
        ),
{
    let ghost ph = opt_text(phrase);
    let ghost sf = opt_states(state_filter);
    let mut sql = String::from_str("SELECT SQL_CALC_FOUND_ROWS * FROM `todos` WHERE `author_id` = ?");
    let mut params: Vec<Param> = Vec::new();
    push_param(&mut params, id_to_param(author_id));
    match phrase {
        Some(p) => {
            sql = sql.concat(" AND (`title` LIKE ? OR `description` LIKE ?)");
            let pattern = String::from_str("%").concat(p.as_str()).concat("%");
            let pattern2 = String::from_str("%").concat(p.as_str()).concat("%");
            push_param(&mut params, Param::Text(pattern));
            push_param(&mut params, Param::Text(pattern2));
        },
        None => {},
    }
    let ghost after_phrase = param_views(params@);
    match state_filter {
        Some(states) => {
            if states.len() == 0 {
                sql = sql.concat(" AND FALSE");
            } else {
                sql = sql.concat(" AND `state` IN (").concat(in_list(&states).as_str()).concat(")");
            }
        },
        None => {},
    }
    let sort = match sorted_by {
        Some(s) => s,
        None => SortedBy::CreatedAt(Order::Desc),
    };
    sql = sql.concat(" ").concat(sort.to_query().as_str());
    match limit {
        Some(l) => {
            sql = sql.concat(" ").concat(l.to_prepared_query().as_str());
            l.bind_query(&mut params);
        },
        None => {},
    }
    sql = sql.concat(";");
    assert(param_views(Seq::<Param>::empty()) =~= Seq::<ParamView>::empty());
    assert(sql@ =~= get_tasks_sql(ph, limit, sorted_by, sf));
    assert(param_views(params@) =~= get_tasks_params(author_id, ph, limit));
    Statement { sql, params }
}

/// A listing is scoped to its author whatever the filters, window and
/// order: its text begins with the author condition, and the parameter
/// bound to it is the author's binary identifier.
pub proof fn lemma_listing_scoped_to_author(
    author_id: ulid::Ulid,
    phrase: Option<Seq<char>>,
    limit: Option<Limit>,
    sorted_by: Option<SortedBy>,
    state_filter: Option<Seq<TaskState>>,
)
    ensures
        ({
            let head = "SELECT SQL_CALC_FOUND_ROWS * FROM `todos` WHERE `author_id` = ?"@;
            get_tasks_sql(phrase, limit, sorted_by, state_filter).subrange(0, head.len() as int) == head
        }),
        get_tasks_params(author_id, phrase, limit)[0] == id_param(author_id),
{
    let head = "SELECT SQL_CALC_FOUND_ROWS * FROM `todos` WHERE `author_id` = ?"@;
    let sql = get_tasks_sql(phrase, limit, sorted_by, state_filter);
    assert(sql.subrange(0, head.len() as int) =~= head);
}

/// The statement that reads how many rows the last listing matched,
/// regardless of its window.
pub fn count_found_rows() -> (r: Statement)
    ensures
        r.sql@ == "SELECT FOUND_ROWS();"@,
        r.params@.len() == 0,
{
    Statement { sql: String::from_str("SELECT FOUND_ROWS();"), params: Vec::new() }
}

pub(crate) fn by_id(sql: &str, id: ulid::Ulid) -> (r: Statement)
    ensures
        r.sql@ == sql@,
        param_views(r.params@) == seq![id_param(id)],
{
    let mut params: Vec<Param> = Vec::new();
    push_param(&mut params, id_to_param(id));
    assert(param_views(Seq::<Param>::empty()) =~= Seq::<ParamView>::empty());
    assert(Seq::<ParamView>::empty().push(id_param(id)) =~= seq![id_param(id)]);
    Statement { sql: String::from_str(sql), params }
}

/// The statement that reads the task `id`, without a lock.
pub fn get_task(id: ulid::Ulid) -> (r: Statement)
    ensures
        r.sql@ == "SELECT * FROM `todos` WHERE `id` = ?;"@,
        param_views(r.params@) == seq![id_param(id)],
{
    by_id("SELECT * FROM `todos` WHERE `id` = ?;", id)
}

/// The statement that reads the task `id` and locks its row until the
/// enclosing transaction ends; every update or delete of a task runs
/// after it in the same transaction.
pub fn get_task_with_lock(id: ulid::Ulid) -> (r: Statement)
    ensures
        r.sql@ == "SELECT * FROM `todos` WHERE `id` = ? FOR UPDATE;"@,
        param_views(r.params@) == seq![id_param(id)],
{
    by_id("SELECT * FROM `todos` WHERE `id` = ? FOR UPDATE;", id)
}

/// The statement that deletes the task `id`; deleting a missing task
/// changes nothing and is no error.
pub fn delete_task(id: ulid::Ulid) -> (r: Statement)
    ensures
        r.sql@ == "DELETE FROM `todos` WHERE `id` = ?;"@,
        param_views(r.params@) == seq![id_param(id)],
{
    by_id("DELETE FROM `todos` WHERE `id` = ?;", id)
}

/// The parameters of an insert, in column order.
pub open spec fn insert_task_params(task: TodoReq) -> Seq<ParamView> {
    seq![
        ParamView::Bytes(task.id@),
        match task.author_id {
            Some(a) => ParamView::Bytes(a@),
            None => ParamView::Null,
        },
        ParamView::Text(task.title@),
        ParamView::Text(task.description@),
        state_param(task.state),
        priority_param(task.priority),
        timestamp_param(task.due_date),
    ]
}

/// The statement that inserts a task under the identifier it carries.
pub fn insert_task(task: TodoReq) -> (r: Statement)
    ensures
        r.sql@ == "INSERT INTO `todos` (`id`, `author_id`, `title`, `description`, `state`, `priority`, `due_date`) VALUES (?, ?, ?, ?, ?, ?, ?);"@,
        param_views(r.params@) == insert_task_params(task),
{
    let ghost t = task;
    let mut params: Vec<Param> = Vec::new();
    push_param(&mut params, Param::Bytes(task.id));
    match task.author_id {
        Some(a) => push_param(&mut params, Param::Bytes(a)),
        None => push_param(&mut params, Param::Null),
    }
    push_param(&mut params, Param::Text(task.title));
    push_param(&mut params, Param::Text(task.description));
    push_param(&mut params, state_to_param(task.state));
    push_param(&mut params, priority_to_param(task.priority));
    push_param(&mut params, timestamp_to_param(task.due_date));
    assert(param_views(params@) =~= insert_task_params(t));
    Statement {
        sql: String::from_str("INSERT INTO `todos` (`id`, `author_id`, `title`, `description`, `state`, `priority`, `due_date`) VALUES (?, ?, ?, ?, ?, ?, ?);"),
        params,
    }
}

} // verus!
