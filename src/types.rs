//! Row types of the store and the values they carry.
use chrono::{Datelike, Timelike};
use vstd::prelude::*;

use crate::text::{digit_text, str_eq};

verus! {

/// One page of a listing, with the number of all matching rows.
#[derive(Debug, Clone)]
pub struct VecWithTotal<T> {
    pub total: usize,
    pub items: Vec<T>,
}

pub open spec fn is_leap_year(y: int) -> bool {
    (y % 4 == 0 && y % 100 != 0) || y % 400 == 0
}

pub open spec fn days_in_month(y: int, m: int) -> int {
    if m == 2 {
        if is_leap_year(y) { 29 } else { 28 }
    } else if m == 4 || m == 6 || m == 9 || m == 11 {
        30
    } else {
        31
    }
}

/// A calendar date and time of day, to the second, without time zone.
#[derive(Debug, Clone, Copy, PartialEq, Eq, Structural)]
pub struct DateTime {
    pub year: i32,
    pub month: u32,
    pub day: u32,
    pub hour: u32,
    pub minute: u32,
    pub second: u32,
}

/// `n` written with exactly `width` decimal digits, most significant first.
pub open spec fn padded(n: int, width: nat) -> Seq<char>
    decreases width,
{
    if width == 0 {
        Seq::empty()
    } else {
        padded(n / 10, (width - 1) as nat) + digit_text(n % 10)
    }
}

/// What the store's text form of a timestamp reads as, as plain numbers.
pub uninterp spec fn parsed_timestamp(s: Seq<char>) -> Option<(int, int, int, int, int, int)>;

/// Relies on chrono's `NaiveDateTime::parse_from_str` with the format
/// "%Y-%m-%d %H:%M:%S": its result depends on the text alone, and a parsed
/// value is a valid date with a time of day whose second lies in 0..=59.
#[verifier::external_body]
fn parse_timestamp_fields(s: &str) -> (r: Option<(i32, u32, u32, u32, u32, u32)>)
    ensures
        r is None <==> parsed_timestamp(s@) is None,
        r matches Some(t) ==> {
            &&& parsed_timestamp(s@) == Some((t.0 as int, t.1 as int, t.2 as int, t.3 as int, t.4 as int, t.5 as int))
            &&& 1 <= t.1 <= 12
            &&& 1 <= t.2 <= days_in_month(t.0 as int, t.1 as int)
            &&& t.3 < 24 && t.4 < 60 && t.5 < 60
        },
{
    match chrono::NaiveDateTime::parse_from_str(s, "%Y-%m-%d %H:%M:%S") {
        Ok(t) => Some((t.year(), t.month(), t.day(), t.hour(), t.minute(), t.second())),
        Err(_) => None,
    }
}

fn pad_digits(n: u32, width: u32) -> (r: String)
    ensures
        r@ == padded(n as int, width as nat),
    decreases width,
{
    if width == 0 {
        String::new()
    } else {
        let digit = n % 10;
        let s: &str = if digit == 0 { "0" }
            else if digit == 1 { "1" }
            else if digit == 2 { "2" }
            else if digit == 3 { "3" }
            else if digit == 4 { "4" }
            else if digit == 5 { "5" }
            else if digit == 6 { "6" }
            else if digit == 7 { "7" }
            else if digit == 8 { "8" }
            else { "9" };
        pad_digits(n / 10, width - 1).concat(s)
    }
}

impl DateTime {
    /// A valid calendar date with a four-digit year and a valid time of day.
    pub open spec fn wf(&self) -> bool {
        &&& 0 <= self.year <= 9999
        &&& 1 <= self.month <= 12
        &&& 1 <= self.day <= days_in_month(self.year as int, self.month as int)
        &&& self.hour < 24
        &&& self.minute < 60
        &&& self.second < 60
    }

    /// Whether the fields form a valid timestamp with a four-digit year.
    pub fn is_valid(&self) -> (r: bool)
        ensures
            r == self.wf(),
    {
        if self.year < 0 || self.year > 9999 || self.month < 1 || self.month > 12 {
            return false;
        }
        let leap = (self.year % 4 == 0 && self.year % 100 != 0) || self.year % 400 == 0;
        let days: u32 = if self.month == 2 {
            if leap { 29 } else { 28 }
        } else if self.month == 4 || self.month == 6 || self.month == 9 || self.month == 11 {
            30
        } else {
            31
        };
        1 <= self.day && self.day <= days && self.hour < 24 && self.minute < 60 && self.second < 60
    }

    /// The text form "YYYY-MM-DD hh:mm:ss".
    pub open spec fn text(&self) -> Seq<char> {
        padded(self.year as int, 4) + "-"@ + padded(self.month as int, 2) + "-"@
            + padded(self.day as int, 2) + " "@ + padded(self.hour as int, 2) + ":"@
            + padded(self.minute as int, 2) + ":"@ + padded(self.second as int, 2)
    }

    /// The timestamp of the given fields, if they form a valid one.
    pub open spec fn from_parts_spec(year: int, month: int, day: int, hour: int, minute: int, second: int) -> Option<DateTime> {
        let d = DateTime {
            year: year as i32,
            month: month as u32,
            day: day as u32,
            hour: hour as u32,
            minute: minute as u32,
            second: second as u32,
        };
        if 0 <= year <= 9999 && 0 <= month <= u32::MAX && 0 <= day <= u32::MAX && 0 <= hour <= u32::MAX
            && 0 <= minute <= u32::MAX && 0 <= second <= u32::MAX && d.wf() {
            Some(d)
        } else {
            None
        }
    }

    /// What `parse` yields for a text.
    pub open spec fn parse_spec(s: Seq<char>) -> Option<DateTime> {
        match parsed_timestamp(s) {
            Some(t) => DateTime::from_parts_spec(t.0, t.1, t.2, t.3, t.4, t.5),
            None => None,
        }
    }

    /// The timestamp of the given fields; `None` unless they form a valid
    /// date and time of day with a four-digit year.
    pub fn from_parts(year: i32, month: u32, day: u32, hour: u32, minute: u32, second: u32) -> (r: Option<DateTime>)
        ensures
            r == DateTime::from_parts_spec(year as int, month as int, day as int, hour as int, minute as int, second as int),
    {
        let d = DateTime { year, month, day, hour, minute, second };
        if d.is_valid() {
            Some(d)
        } else {
            None
        }
    }

    /// Reads a timestamp written "YYYY-MM-DD hh:mm:ss"; `None` when the text
    /// is no such timestamp or its year does not have four digits.
    pub fn parse(s: &str) -> (r: Option<DateTime>)
        ensures
            r == DateTime::parse_spec(s@),
            r matches Some(d) ==> d.wf(),
    {
        match parse_timestamp_fields(s) {
            Some(t) => DateTime::from_parts(t.0, t.1, t.2, t.3, t.4, t.5),
            None => None,
        }
    }

    /// Writes the timestamp as "YYYY-MM-DD hh:mm:ss".
    pub fn format(&self) -> (r: String)
        requires
            self.wf(),
        ensures
            r@ == self.text(),
    {
        pad_digits(self.year as u32, 4).concat("-")
            .concat(pad_digits(self.month, 2).as_str()).concat("-")
            .concat(pad_digits(self.day, 2).as_str()).concat(" ")
            .concat(pad_digits(self.hour, 2).as_str()).concat(":")
            .concat(pad_digits(self.minute, 2).as_str()).concat(":")
            .concat(pad_digits(self.second, 2).as_str())
    }
}

#[derive(Debug, Clone)]
pub struct Tag {
    pub id: Vec<u8>,
    pub name: String,
    pub created_at: DateTime,
    pub updated_at: DateTime,
}

#[derive(Debug, Clone)]
pub struct TagReq {
    pub id: Vec<u8>,
    pub name: String,
}

/// A user row. `username` is `None` exactly when the account was removed.
#[derive(Debug, Clone)]
pub struct User {
    pub id: Vec<u8>,
    pub username: Option<String>,
    pub display_name: String,
    pub hashed_password: Vec<u8>,
    pub created_at: DateTime,
    pub updated_at: DateTime,
    pub deleted_at: Option<DateTime>,
}

#[derive(Debug, Clone)]
pub struct UserReq {
    pub id: Vec<u8>,
    pub username: String,
    pub display_name: String,
    pub hashed_password: Vec<u8>,
}

/// Where a task stands in its workflow.
#[derive(Debug, Clone, Copy, PartialEq, Eq, Structural)]
pub enum TaskState {
    Icebox,
    Todo,
    InProgress,
    Done,
}

impl TaskState {
    /// The name under which the state is stored and exchanged.
    pub open spec fn name(self) -> Seq<char> {
        match self {
            TaskState::Icebox => "icebox"@,
            TaskState::Todo => "todo"@,
            TaskState::InProgress => "in-progress"@,
            TaskState::Done => "done"@,
        }
    }

    /// Reads a state from its name.
    pub fn from_str(s: &str) -> (r: Result<TaskState, ()>)
        ensures
            r matches Ok(t) ==> t.name() == s@,
            r is Err ==> forall|t: TaskState| t.name() != s@,
    {
        if str_eq(s, "icebox") {
            Ok(TaskState::Icebox)
        } else if str_eq(s, "todo") {
            Ok(TaskState::Todo)
        } else if str_eq(s, "in-progress") {
            Ok(TaskState::InProgress)
        } else if str_eq(s, "done") {
            Ok(TaskState::Done)
        } else {
            Err(())
        }
    }

    /// The name of the state.
    pub fn to_string(&self) -> (r: String)
        ensures
            r@ == self.name(),
    {
        match self {
            TaskState::Icebox => String::from_str("icebox"),
            TaskState::Todo => String::from_str("todo"),
            TaskState::InProgress => String::from_str("in-progress"),
            TaskState::Done => String::from_str("done"),
        }
    }
}

/// How urgent a task is.
#[derive(Debug, Clone, Copy, PartialEq, Eq, Structural)]
pub enum TaskPriority {
    Low,
    Medium,
    High,
}

impl TaskPriority {
    /// The name under which the priority is stored and exchanged.
    pub open spec fn name(self) -> Seq<char> {
        match self {
            TaskPriority::Low => "low"@,
            TaskPriority::Medium => "medium"@,
            TaskPriority::High => "high"@,
        }
    }

    /// Reads a priority from its name.
    pub fn from_str(s: &str) -> (r: Result<TaskPriority, ()>)
        ensures
            r matches Ok(p) ==> p.name() == s@,
            r is Err ==> forall|p: TaskPriority| p.name() != s@,
    {
        if str_eq(s, "low") {
            Ok(TaskPriority::Low)
        } else if str_eq(s, "medium") {
            Ok(TaskPriority::Medium)
        } else if str_eq(s, "high") {
            Ok(TaskPriority::High)
        } else {
            Err(())
        }
    }

    /// The name of the priority.
    pub fn to_string(&self) -> (r: String)
        ensures
            r@ == self.name(),
    {
        match self {
            TaskPriority::Low => String::from_str("low"),
            TaskPriority::Medium => String::from_str("medium"),
            TaskPriority::High => String::from_str("high"),
        }
    }
}

/// A task row. `author_id` is `None` only in rows older than ownership.
#[derive(Debug, Clone)]
pub struct Todo {
    pub id: Vec<u8>,
    pub author_id: Option<Vec<u8>>,
    pub title: String,
    pub description: String,
    pub created_at: DateTime,
    pub updated_at: DateTime,
    pub state: TaskState,
    pub priority: Option<TaskPriority>,
    pub due_date: Option<DateTime>,
}

/// A task to insert, with its identifier already chosen.
#[derive(Debug, Clone)]
pub struct TodoReq {
    pub id: Vec<u8>,
    pub author_id: Option<Vec<u8>>,
    pub title: String,
    pub description: String,
    pub state: TaskState,
    pub priority: Option<TaskPriority>,
    pub due_date: Option<DateTime>,
}

} // verus!
