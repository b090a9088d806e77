//! Parameterized SQL statements and the clauses that listings share.
use vstd::prelude::*;

use crate::text::{decimal, decimal_text, str_eq};
use crate::types::DateTime;

verus! {

/// A value bound to one `?` placeholder of a statement.
#[derive(Debug, Clone)]
pub enum Param {
    Bytes(Vec<u8>),
    Text(String),
    Count(u64),
    Timestamp(DateTime),
    Null,
}

/// What a bound parameter holds.
pub enum ParamView {
    Bytes(Seq<u8>),
    Text(Seq<char>),
    Count(u64),
    Timestamp(DateTime),
    Null,
}

impl View for Param {
    type V = ParamView;

    open spec fn view(&self) -> ParamView {
        match self {
            Param::Bytes(b) => ParamView::Bytes(b@),
            Param::Text(t) => ParamView::Text(t@),
            Param::Count(n) => ParamView::Count(*n),
            Param::Timestamp(d) => ParamView::Timestamp(*d),
            Param::Null => ParamView::Null,
        }
    }
}

/// The views of a list of parameters.
pub open spec fn param_views(ps: Seq<Param>) -> Seq<ParamView> {
    ps.map_values(|p: Param| p@)
}

/// An SQL text with one bound parameter per `?`, in order of appearance.
#[derive(Debug, Clone)]
pub struct Statement {
    pub sql: String,
    pub params: Vec<Param>,
}

/// Appends one parameter.
pub fn push_param(params: &mut Vec<Param>, p: Param)
    ensures
        param_views(final(params)@) == param_views(old(params)@).push(p@),
{
    let ghost v = p@;
    params.push(p);
    assert(param_views(params@) =~= param_views(old(params)@).push(v));
}

/// A sort direction.
#[derive(Debug, Clone, Copy, PartialEq, Eq, Structural)]
pub enum Order {
    Asc,
    Desc,
}

impl Order {
    pub open spec fn keyword(self) -> Seq<char> {
        match self {
            Order::Asc => "ASC"@,
            Order::Desc => "DESC"@,
        }
    }

    /// Reads a direction from its name, "asc" or "desc".
    pub fn from_str(s: &str) -> (r: Result<Order, ()>)
        ensures
            s@ == "asc"@ ==> r == Ok::<Order, ()>(Order::Asc),
            s@ == "desc"@ ==> r == Ok::<Order, ()>(Order::Desc),
            s@ != "asc"@ && s@ != "desc"@ ==> r is Err,
    {
        proof {
            reveal_strlit("asc");
            reveal_strlit("desc");
            assert("asc"@[0] != "desc"@[0]);
        }
        if str_eq(s, "asc") {
            Ok(Order::Asc)
        } else if str_eq(s, "desc") {
            Ok(Order::Desc)
        } else {
            Err(())
        }
    }

    /// The SQL keyword of the direction.
    pub fn to_query(self) -> (r: String)
        ensures
            r@ == self.keyword(),
    {
        match self {
            Order::Asc => String::from_str("ASC"),
            Order::Desc => String::from_str("DESC"),
        }
    }
}

/// The order of a task listing. Priority sorts by rank (low, unset,
/// medium, high) and may be followed by a timestamp key.
#[derive(Debug, Clone, Copy, PartialEq, Eq, Structural)]
pub enum SortedBy {
    CreatedAt(Order),
    UpdatedAt(Order),
    Priority(Order),
    PriorityAndCreatedAt(Order, Order),
    PriorityAndUpdatedAt(Order, Order),
}

/// The SQL expression that ranks a row by priority.
pub open spec fn priority_rank_expr() -> Seq<char> {
    "CASE WHEN (`priority` = 'low') THEN 0 WHEN (`priority` IS NULL) THEN 1 WHEN (`priority` = 'medium') THEN 2 WHEN (`priority` = 'high') THEN 3 ELSE 4 END"@
}

impl SortedBy {
    /// The `ORDER BY` clause of the sort.
    pub open spec fn clause(self) -> Seq<char> {
        match self {
            SortedBy::CreatedAt(o) => "ORDER BY "@ + "`created_at` "@ + o.keyword(),
            SortedBy::UpdatedAt(o) => "ORDER BY "@ + "`updated_at` "@ + o.keyword(),
            SortedBy::Priority(o) => "ORDER BY "@ + priority_rank_expr() + " "@ + o.keyword(),
            SortedBy::PriorityAndCreatedAt(o, t) => "ORDER BY "@ + priority_rank_expr() + " "@
                + o.keyword() + " , `created_at` "@ + t.keyword(),
            SortedBy::PriorityAndUpdatedAt(o, t) => "ORDER BY "@ + priority_rank_expr() + " "@
                + o.keyword() + " , `updated_at` "@ + t.keyword(),
        }
    }

    pub fn to_query(&self) -> (r: String)
        ensures
            r@ == self.clause(),
    {
        let head = String::from_str("ORDER BY ");
        match self {
            SortedBy::CreatedAt(o) => head.concat("`created_at` ").concat(o.to_query().as_str()),
            SortedBy::UpdatedAt(o) => head.concat("`updated_at` ").concat(o.to_query().as_str()),
            SortedBy::Priority(o) => head.concat(priority_rank_sql()).concat(" ")
                .concat(o.to_query().as_str()),
            SortedBy::PriorityAndCreatedAt(o, t) => head.concat(priority_rank_sql()).concat(" ")
                .concat(o.to_query().as_str()).concat(" , `created_at` ")
                .concat(t.to_query().as_str()),
            SortedBy::PriorityAndUpdatedAt(o, t) => head.concat(priority_rank_sql()).concat(" ")
                .concat(o.to_query().as_str()).concat(" , `updated_at` ")
                .concat(t.to_query().as_str()),
        }
    }
}

fn priority_rank_sql() -> (r: &'static str)
    ensures
        r@ == priority_rank_expr(),
{
    "CASE WHEN (`priority` = 'low') THEN 0 WHEN (`priority` IS NULL) THEN 1 WHEN (`priority` = 'medium') THEN 2 WHEN (`priority` = 'high') THEN 3 ELSE 4 END"
}

/// The window of a listing: at most `limit` rows, after skipping `offset`.
#[derive(Debug, Clone, Copy, PartialEq, Eq, Structural)]
pub enum Limit {
    LimitOffset(usize, usize),
    Limit(usize),
}

impl Limit {
    /// The clause with the numbers written out.
    pub fn to_query(self) -> (r: String)
        ensures
            r@ == match self {
                Limit::LimitOffset(l, o) => "LIMIT "@ + decimal(l as nat) + " OFFSET "@ + decimal(o as nat),
                Limit::Limit(l) => "LIMIT "@ + decimal(l as nat),
            },
    {
        match self {
            Limit::LimitOffset(limit, offset) => String::from_str("LIMIT ")
                .concat(decimal_text(limit as u64).as_str()).concat(" OFFSET ")
                .concat(decimal_text(offset as u64).as_str()),
            Limit::Limit(limit) => String::from_str("LIMIT ").concat(decimal_text(limit as u64).as_str()),
        }
    }

    pub open spec fn prepared(self) -> Seq<char> {
        match self {
            Limit::LimitOffset(_, _) => "LIMIT ? OFFSET ?"@,
            Limit::Limit(_) => "LIMIT ?"@,
        }
    }

    /// The parameters that the prepared clause binds, in order.
    pub open spec fn bound(self) -> Seq<ParamView> {
        match self {
            Limit::LimitOffset(l, o) => seq![ParamView::Count(l as u64), ParamView::Count(o as u64)],
            Limit::Limit(l) => seq![ParamView::Count(l as u64)],
        }
    }

    /// The clause with a placeholder for each number.
    pub fn to_prepared_query(self) -> (r: String)
        ensures
            r@ == self.prepared(),
    {
        match self {
            Limit::LimitOffset(_, _) => String::from_str("LIMIT ? OFFSET ?"),
            Limit::Limit(_) => String::from_str("LIMIT ?"),
        }
    }

    /// Appends the numbers of the clause to `params`.
    pub fn bind_query(self, params: &mut Vec<Param>)
        ensures
            param_views(final(params)@) == param_views(old(params)@) + self.bound(),
    {
        match self {
            Limit::LimitOffset(limit, offset) => {
                params.push(Param::Count(limit as u64));
                params.push(Param::Count(offset as u64));
            },
            Limit::Limit(limit) => params.push(Param::Count(limit as u64)),
        }
        assert(param_views(params@) =~= param_views(old(params)@) + self.bound());
    }
}

} // verus!
