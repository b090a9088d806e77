//! The account repository: the statements that read and write user rows,
//! and the partial update of an account.
use vstd::prelude::*;

use crate::ident::fresh_ulid;
use crate::query::{param_views, push_param, Param, ParamView, Statement};
use crate::tasks::{by_id, column_if, id_param, id_to_param};
use crate::text::{join, join_strings, views};
use crate::update::{assignment, Update};

verus! {

/// A partial update of an account.
pub struct UpdateUser {
    pub username: Update<String>,
    pub display_name: Update<String>,
    pub hashed_password: Update<Vec<u8>>,
}

impl Default for UpdateUser {
    fn default() -> (r: Self)
        ensures
            r.columns().len() == 0,
    {
        UpdateUser { username: Update::Nop, display_name: Update::Nop, hashed_password: Update::Nop }
    }
}

impl UpdateUser {
    /// The columns that the update writes, in the fixed order of the fields.
    pub open spec fn columns(&self) -> Seq<Seq<char>> {
        column_if(self.username, "username"@) + column_if(self.display_name, "display_name"@)
            + column_if(self.hashed_password, "hashed_password"@)
    }

    /// The values that the update writes, in the order of `columns`.
    pub open spec fn params(&self) -> Seq<ParamView> {
        (match self.username {
            Update::Assign(u) => seq![ParamView::Text(u@)],
            Update::Nop => Seq::empty(),
        }) + (match self.display_name {
            Update::Assign(d) => seq![ParamView::Text(d@)],
            Update::Nop => Seq::empty(),
        }) + (match self.hashed_password {
            Update::Assign(h) => seq![ParamView::Bytes(h@)],
            Update::Nop => Seq::empty(),
        })
    }

    /// The `SET` list: one assignment per written column, joined by ", ".
    pub open spec fn set_list(&self) -> Seq<char> {
        join(self.columns().map_values(|c: Seq<char>| assignment(c)), ", "@)
    }

    /// The assignments of the written columns, joined by ", ".
    pub fn to_prepared_query(&self) -> (r: String)
        ensures
            r@ == self.set_list(),
    {
        let mut query: Vec<String> = Vec::new();
        let ghost mut cols: Seq<Seq<char>> = Seq::empty();
        if let Some(q) = self.username.to_prepared_query("username") {
            query.push(q);
        }
        proof { cols = column_if(self.username, "username"@); }
        assert(views(query@) =~= cols.map_values(|c: Seq<char>| assignment(c)));
        if let Some(q) = self.display_name.to_prepared_query("display_name") {
            query.push(q);
        }
        proof { cols = cols + column_if(self.display_name, "display_name"@); }
        assert(views(query@) =~= cols.map_values(|c: Seq<char>| assignment(c)));
        if let Some(q) = self.hashed_password.to_prepared_query("hashed_password") {
            query.push(q);
        }
        proof { cols = cols + column_if(self.hashed_password, "hashed_password"@); }
        assert(views(query@) =~= cols.map_values(|c: Seq<char>| assignment(c)));
        join_strings(&query, ", ")
    }

    /// Appends the written values to `params`, in the order of the columns.
    pub fn bind_query(self, params: &mut Vec<Param>)
        ensures
            param_views(final(params)@) == param_views(old(params)@) + self.params(),
    {
        let ghost start = param_views(params@);
        let ghost this = self;
        if let Update::Assign(u) = self.username {
            push_param(params, Param::Text(u));
        }
        if let Update::Assign(d) = self.display_name {
            push_param(params, Param::Text(d));
        }
        if let Update::Assign(h) = self.hashed_password {
            push_param(params, Param::Bytes(h));
        }
        assert(param_views(params@) =~= start + this.params());
    }

    /// Whether the update writes no column.
    pub fn is_nop(&self) -> (r: bool)
        ensures
            r == (self.columns().len() == 0),
    {
        self.username.is_nop() && self.display_name.is_nop() && self.hashed_password.is_nop()
    }
}

/// The text of the single statement that applies a non-empty update to an
/// account that has not been removed.
pub open spec fn update_user_sql(u: UpdateUser) -> Seq<char> {
    "UPDATE `users` SET "@ + u.set_list() + " WHERE `id` = ? AND `deleted_at` IS NULL;"@
}

/// The statement that applies `update` to the account `id`, or `None` when
/// the update writes no column: then nothing is to be executed at all.
pub fn update_user(id: ulid::Ulid, update: UpdateUser) -> (r: Option<Statement>)
    ensures
        r is None <==> update.columns().len() == 0,
        r matches Some(st) ==> {
            &&& st.sql@ == update_user_sql(update)
            &&& param_views(st.params@) == update.params().push(id_param(id))
        },
{
    if update.is_nop() {
        return None;
    }
    let sql = String::from_str("UPDATE `users` SET ").concat(update.to_prepared_query().as_str())
        .concat(" WHERE `id` = ? AND `deleted_at` IS NULL;");
    let mut params: Vec<Param> = Vec::new();
    let ghost u = update;
    update.bind_query(&mut params);
    push_param(&mut params, id_to_param(id));
    assert(param_views(Seq::<Param>::empty()) =~= Seq::<ParamView>::empty());
    assert(Seq::<ParamView>::empty() + u.params() =~= u.params());
    Some(Statement { sql, params })
}

fn by_text(sql: &str, text: &str) -> (r: Statement)
    ensures
        r.sql@ == sql@,
        param_views(r.params@) == seq![ParamView::Text(text@)],
{
    let mut params: Vec<Param> = Vec::new();
    push_param(&mut params, Param::Text(String::from_str(text)));
    assert(param_views(Seq::<Param>::empty()) =~= Seq::<ParamView>::empty());
    assert(Seq::<ParamView>::empty().push(ParamView::Text(text@)) =~= seq![ParamView::Text(text@)]);
    Statement { sql: String::from_str(sql), params }
}

/// The statement that counts the accounts holding `username`, matched
/// exactly and case-sensitively. A removed account holds no username.
pub fn is_username_exists(username: &str) -> (r: Statement)
    ensures
        r.sql@ == "SELECT COUNT(*) FROM `users` WHERE `username` = ?;"@,
        param_views(r.params@) == seq![ParamView::Text(username@)],
{
    by_text("SELECT COUNT(*) FROM `users` WHERE `username` = ?;", username)
}

/// Whether a count read from the store counts at least one row.
pub fn count_is_positive(count: i64) -> (r: bool)
    ensures
        r == (count > 0),
{
    count > 0
}

/// The parameters of an account insert, after its identifier.
pub open spec fn insert_user_rest(username: Seq<char>, display_name: Seq<char>, hashed_password: Seq<u8>) -> Seq<ParamView> {
    seq![ParamView::Text(username), ParamView::Text(display_name), ParamView::Bytes(hashed_password)]
}

/// The statement that creates an account under `id`, or under a fresh
/// identifier when none is given.
pub fn insert_user(
    id: Option<ulid::Ulid>,
    username: &str,
    display_name: &str,
    hashed_password: &[u8],
) -> (r: Statement)
    ensures
        r.sql@ == "INSERT INTO `users` (`id`, `username`, `display_name`, `hashed_password`) VALUES (?, ?, ?, ?);"@,
        param_views(r.params@).len() == 4,
        exists|i: ulid::Ulid| param_views(r.params@)[0] == id_param(i),
        id matches Some(i) ==> param_views(r.params@)[0] == id_param(i),
        param_views(r.params@).subrange(1, 4) == insert_user_rest(username@, display_name@, hashed_password@),
{
    let id = match id {
        Some(i) => i,
        None => fresh_ulid(),
    };
    let mut params: Vec<Param> = Vec::new();
    push_param(&mut params, id_to_param(id));
    push_param(&mut params, Param::Text(String::from_str(username)));
    push_param(&mut params, Param::Text(String::from_str(display_name)));
    let mut bytes: Vec<u8> = Vec::new();
    let mut i: usize = 0;
    while i < hashed_password.len()
        invariant
            i <= hashed_password@.len(),
            bytes@ == hashed_password@.subrange(0, i as int),
        decreases hashed_password@.len() - i,
    {
        bytes.push(hashed_password[i]);
        i = i + 1;
        assert(bytes@ =~= hashed_password@.subrange(0, i as int));
    }
    assert(hashed_password@.subrange(0, hashed_password@.len() as int) =~= hashed_password@);
    push_param(&mut params, Param::Bytes(bytes));
    assert(param_views(params@).subrange(1, 4) =~= insert_user_rest(username@, display_name@, hashed_password@));
    assert(param_views(params@)[0] == id_param(id));
    Statement {
        sql: String::from_str("INSERT INTO `users` (`id`, `username`, `display_name`, `hashed_password`) VALUES (?, ?, ?, ?);"),
        params,
    }
}

/// The statement that removes an account: it is marked deleted now and its
/// username is cleared, which frees the name; the row itself stays.
pub fn remove_user(id: ulid::Ulid) -> (r: Statement)
    ensures
        r.sql@ == "UPDATE `users` SET `deleted_at` = NOW(), `username` = NULL WHERE `id` = ?;"@,
        param_views(r.params@) == seq![id_param(id)],
{
    by_id("UPDATE `users` SET `deleted_at` = NOW(), `username` = NULL WHERE `id` = ?;", id)
}

/// The statement that counts the accounts `id` whose stored hash equals
/// `hashed_password`.
pub fn verify_password(id: ulid::Ulid, hashed_password: &[u8]) -> (r: Statement)
    ensures
        r.sql@ == "SELECT COUNT(*) FROM `users` WHERE `id` = ? AND `hashed_password` = ?;"@,
        param_views(r.params@) == seq![id_param(id), ParamView::Bytes(hashed_password@)],
{
    let mut params: Vec<Param> = Vec::new();
    push_param(&mut params, id_to_param(id));
    let mut bytes: Vec<u8> = Vec::new();
    let mut i: usize = 0;
    while i < hashed_password.len()
        invariant
            i <= hashed_password@.len(),
            bytes@ == hashed_password@.subrange(0, i as int),
        decreases hashed_password@.len() - i,
    {
        bytes.push(hashed_password[i]);
        i = i + 1;
        assert(bytes@ =~= hashed_password@.subrange(0, i as int));
    }
    assert(hashed_password@.subrange(0, hashed_password@.len() as int) =~= hashed_password@);
    push_param(&mut params, Param::Bytes(bytes));
    assert(param_views(params@) =~= seq![id_param(id), ParamView::Bytes(hashed_password@)]);
    Statement {
        sql: String::from_str("SELECT COUNT(*) FROM `users` WHERE `id` = ? AND `hashed_password` = ?;"),
        params,
    }
}

/// The statement that reads the account holding `username`, if it has not
/// been removed; used to log in.
pub fn get_user_from_username(username: &str) -> (r: Statement)
    ensures
        r.sql@ == "SELECT * FROM `users` WHERE `username` = ? AND `deleted_at` IS NULL;"@,
        param_views(r.params@) == seq![ParamView::Text(username@)],
{
    by_text("SELECT * FROM `users` WHERE `username` = ? AND `deleted_at` IS NULL;", username)
}

/// The statement that reads the account `id`, if it has not been removed.
pub fn get_user(id: ulid::Ulid) -> (r: Statement)
    ensures
        r.sql@ == "SELECT * FROM `users` WHERE `id` = ? AND `deleted_at` IS NULL;"@,
        param_views(r.params@) == seq![id_param(id)],
{
    by_id("SELECT * FROM `users` WHERE `id` = ? AND `deleted_at` IS NULL;", id)
}

/// The statement that counts the accounts `id` that have not been removed:
/// a positive count makes the identifier a valid session owner.
pub fn is_valid_id(id: ulid::Ulid) -> (r: Statement)
    ensures
        r.sql@ == "SELECT COUNT(*) FROM `users` WHERE `id` = ? AND `deleted_at` IS NULL;"@,
        param_views(r.params@) == seq![id_param(id)],
{
    by_id("SELECT COUNT(*) FROM `users` WHERE `id` = ? AND `deleted_at` IS NULL;", id)
}

} // verus!
