//! The outside work of a request: what the caller is asked to run, and what
//! it hands back.

use vstd::prelude::*;
use crate::model::{User, UserView, NewUser, NewUserView, UpdateUser, UpdateUserView, users_view};

verus! {

/// What asking the pool for a connection gave.
#[derive(Debug, Clone, Copy, PartialEq, Eq, Structural)]
pub enum Acquire {
    /// A live connection is held for the rest of the request.
    Ready,
    /// The pool is exhausted or cannot reach the store.
    Unavailable,
}

/// Why a statement gave no result.
#[derive(Debug, Clone, Copy, PartialEq, Eq, Structural)]
pub enum QueryError {
    /// The statement ran and no row came back where one was asked for.
    NotFound,
    /// Anything else: a broken constraint, a lost connection, a refused query.
    Database,
}

/// One statement on the table of users, with its parameters.
#[derive(Debug, Clone, PartialEq, Eq)]
pub enum Statement {
    /// Insert a row and return it with the id that the store assigned.
    Insert { new_user: NewUser },
    /// Return every row.
    SelectAll,
    /// Return the first row with this id.
    SelectById { id: i32 },
    /// Set the fields that are present on the row with this id.
    Update { id: i32, changes: UpdateUser },
    /// Delete the row with this id.
    Delete { id: i32 },
}

/// The mathematical value of a [`Statement`].
pub enum StatementView {
    Insert { new_user: NewUserView },
    SelectAll,
    SelectById { id: int },
    Update { id: int, changes: UpdateUserView },
    Delete { id: int },
}

impl View for Statement {
    type V = StatementView;

    open spec fn view(&self) -> StatementView {
        match *self {
            Statement::Insert { new_user } => StatementView::Insert { new_user: new_user@ },
            Statement::SelectAll => StatementView::SelectAll,
            Statement::SelectById { id } => StatementView::SelectById { id: id as int },
            Statement::Update { id, changes } => StatementView::Update {
                id: id as int,
                changes: changes@,
            },
            Statement::Delete { id } => StatementView::Delete { id: id as int },
        }
    }
}

impl StatementView {
    /// A statement that can be run: an update sets at least one field.
    pub open spec fn well_formed(self) -> bool {
        self matches StatementView::Update { changes, .. } ==> !changes.is_empty()
    }
}

/// The view of what a statement that returns one row gave.
pub open spec fn row_view(result: Result<User, QueryError>) -> Result<UserView, QueryError> {
    match result {
        Ok(user) => Ok(user@),
        Err(e) => Err(e),
    }
}

/// The view of what a statement that returns rows gave.
pub open spec fn rows_view(result: Result<Vec<User>, QueryError>) -> Result<
    Seq<UserView>,
    QueryError,
> {
    match result {
        Ok(users) => Ok(users_view(users)),
        Err(e) => Err(e),
    }
}

/// The view of what a statement that returns a count of rows gave.
pub open spec fn count_view(result: Result<usize, QueryError>) -> Result<nat, QueryError> {
    match result {
        Ok(n) => Ok(n as nat),
        Err(e) => Err(e),
    }
}

} // verus!
