//! A tri-state field value for partial updates.
use vstd::prelude::*;

verus! {

/// A field of a partial update: either left untouched (`Nop`) or replaced
/// with a new value (`Assign`). For a nullable column `T` is itself an
/// `Option`, so that "set to null" and "leave unchanged" stay distinct.
#[derive(Debug)]
pub enum Update<T> {
    Assign(T),
    Nop,
}

/// The `SET` fragment that assigns a bound parameter to a column.
pub open spec fn assignment(column: Seq<char>) -> Seq<char> {
    "`"@ + column + "` = ?"@
}

impl<T> Update<T> {
    /// The value of an `Assign` update.
    pub fn unwrap(self) -> (r: T)
        requires
            self is Assign,
        ensures
            self == Update::Assign(r),
    {
        match self {
            Update::Assign(t) => t,
            Update::Nop => { proof { assert(false); } unreached() }
        }
    }

    pub fn is_nop(&self) -> (r: bool)
        ensures
            r == (*self is Nop),
    {
        match self {
            Update::Nop => true,
            Update::Assign(_) => false,
        }
    }

    pub fn is_set(&self) -> (r: bool)
        ensures
            r == (*self is Assign),
    {
        match self {
            Update::Assign(_) => true,
            Update::Nop => false,
        }
    }

    /// Transforms the value of an `Assign` update; a `Nop` stays a `Nop`.
    pub fn map<U, F: FnOnce(T) -> U>(self, f: F) -> (r: Update<U>)
        requires
            self matches Update::Assign(t) ==> call_requires(f, (t,)),
        ensures
            self is Nop ==> r is Nop,
            self matches Update::Assign(t) ==> (r matches Update::Assign(u) && call_ensures(f, (t,), u)),
    {
        match self {
            Update::Assign(t) => Update::Assign(f(t)),
            Update::Nop => Update::Nop,
        }
    }

    /// The column assignment "`column` = ?" of an `Assign` update, `None` for a `Nop`.
    pub fn to_prepared_query(&self, column_name: &str) -> (r: Option<String>)
        ensures
            *self is Nop ==> r is None,
            *self is Assign ==> (r matches Some(s) && s@ == assignment(column_name@)),
    {
        match self {
            Update::Assign(_) => {
                let s = String::from_str("`").concat(column_name).concat("` = ?");
                Some(s)
            },
            Update::Nop => None,
        }
    }
}

impl<T> Update<Option<T>> {
    /// Collapses a nullable update: `Assign(Some(t))` becomes `Assign(t)`, `Nop`
    /// stays `Nop`, and `Assign(None)` yields `None`.
    pub fn transpose(self) -> (r: Option<Update<T>>)
        ensures
            self matches Update::Assign(Some(t)) ==> r == Some(Update::Assign(t)),
            self matches Update::Assign(None) ==> r is None,
            self is Nop ==> r == Some(Update::<T>::Nop),
    {
        match self {
            Update::Assign(Some(t)) => Some(Update::Assign(t)),
            Update::Assign(None) => None,
            Update::Nop => Some(Update::Nop),
        }
    }
}

impl<T, E> Update<Result<T, E>> {
    /// Moves a failure out of the update: `Assign(Err(e))` becomes `Err(e)`.
    pub fn transpose(self) -> (r: Result<Update<T>, E>)
        ensures
            self matches Update::Assign(Ok(t)) ==> r == Ok::<Update<T>, E>(Update::Assign(t)),
            self matches Update::Assign(Err(e)) ==> r == Err::<Update<T>, E>(e),
            self is Nop ==> r == Ok::<Update<T>, E>(Update::Nop),
    {
        match self {
            Update::Assign(Ok(t)) => Ok(Update::Assign(t)),
            Update::Assign(Err(e)) => Err(e),
            Update::Nop => Ok(Update::Nop),
        }
    }
}

impl<T> Default for Update<T> {
    fn default() -> (r: Self)
        ensures
            r is Nop,
    {
        Update::Nop
    }
}

} // verus!
