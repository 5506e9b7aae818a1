//! The five request handlers.
//!
//! Each handler comes in steps. The first step takes what the pool gave and
//! the request's input, and says what to do next: run a statement, or answer
//! at once. A later step takes what the statement gave and says the same, or
//! gives the response.

use vstd::prelude::*;
use crate::model::{User, UserView, NewUser, NewUserView, UpdateUser, UpdateUserView};
use crate::response::{Response, ResponseView, Status};
use crate::statement::{
    Acquire, QueryError, Statement, StatementView, row_view, rows_view, count_view,
};

verus! {

/// What a step of a handler asks of its caller.
#[derive(Debug, Clone, PartialEq, Eq)]
pub enum Next {
    /// Run this statement on the connection and hand back what it gave.
    Execute(Statement),
    /// The request is over: send this response and release the connection.
    Respond(Response),
}

/// The mathematical value of a [`Next`].
pub enum NextView {
    Execute(StatementView),
    Respond(ResponseView),
}

impl View for Next {
    type V = NextView;

    open spec fn view(&self) -> NextView {
        match *self {
            Next::Execute(statement) => NextView::Execute(statement@),
            Next::Respond(response) => NextView::Respond(response@),
        }
    }
}

/// What every handler does with the pool's answer: without a connection the
/// request ends with 500, with one it runs `statement`.
pub open spec fn spec_connect(pool: Acquire, statement: StatementView) -> NextView {
    match pool {
        Acquire::Unavailable => NextView::Respond(
            ResponseView::bare(Status::InternalServerError),
        ),
        Acquire::Ready => NextView::Execute(statement),
    }
}

/// The response to a fetch of one row: 200 with the row, 404 where no row
/// has the id, 500 where the fetch failed for any other reason.
pub open spec fn spec_fetched(found: Result<UserView, QueryError>) -> ResponseView {
    match found {
        Ok(user) => ResponseView::one(Status::Success, user),
        Err(QueryError::NotFound) => ResponseView::bare(Status::NotFound),
        Err(QueryError::Database) => ResponseView::bare(Status::InternalServerError),
    }
}

/// The statement that an update starts with. With no field present there is
/// nothing to set, and the handler goes straight to fetching the row.
pub open spec fn spec_update_statement(id: int, update: UpdateUserView) -> StatementView {
    if update.is_empty() {
        StatementView::SelectById { id }
    } else {
        StatementView::Update { id, changes: update }
    }
}

/// Creation, first step.
pub open spec fn spec_create_user(pool: Acquire, new_user: NewUserView) -> NextView {
    spec_connect(pool, StatementView::Insert { new_user })
}

/// Creation, last step: 201 with the row as the store returned it, 500 on
/// any failure.
pub open spec fn spec_create_user_reply(inserted: Result<UserView, QueryError>) -> ResponseView {
    match inserted {
        Ok(user) => ResponseView::one(Status::Created, user),
        Err(_) => ResponseView::bare(Status::InternalServerError),
    }
}

/// Listing, first step.
pub open spec fn spec_read_users(pool: Acquire) -> NextView {
    spec_connect(pool, StatementView::SelectAll)
}

/// Listing, last step: 200 with the rows as they came, 500 on any failure.
pub open spec fn spec_read_users_reply(loaded: Result<Seq<UserView>, QueryError>) -> ResponseView {
    match loaded {
        Ok(users) => ResponseView::many(Status::Success, users),
        Err(_) => ResponseView::bare(Status::InternalServerError),
    }
}

/// Reading one user, first step.
pub open spec fn spec_read_user(pool: Acquire, id: int) -> NextView {
    spec_connect(pool, StatementView::SelectById { id })
}

/// Updating, first step.
pub open spec fn spec_update_user(pool: Acquire, id: int, update: UpdateUserView) -> NextView {
    spec_connect(pool, spec_update_statement(id, update))
}

/// Updating, second step: after the update, whatever the number of rows it
/// touched, the row is fetched; a failed update ends the request with 500.
pub open spec fn spec_update_user_refetch(id: int, changed: Result<nat, QueryError>) -> NextView {
    match changed {
        Ok(_) => NextView::Execute(StatementView::SelectById { id }),
        Err(_) => NextView::Respond(ResponseView::bare(Status::InternalServerError)),
    }
}

/// Deleting, first step.
pub open spec fn spec_delete_user(pool: Acquire, id: int) -> NextView {
    spec_connect(pool, StatementView::Delete { id })
}

/// Deleting, last step: 204 whatever the number of rows that went, 500 on
/// any failure.
pub open spec fn spec_delete_user_reply(deleted: Result<nat, QueryError>) -> ResponseView {
    match deleted {
        Ok(_) => ResponseView::bare(Status::NoContent),
        Err(_) => ResponseView::bare(Status::InternalServerError),
    }
}

/// With a connection, run `statement`; without one, answer 500.
fn connect(pool: Acquire, statement: Statement) -> (next: Next)
    ensures
        next@ == spec_connect(pool, statement@),
{
    match pool {
        Acquire::Unavailable => Next::Respond(Response::bare(Status::InternalServerError)),
        Acquire::Ready => Next::Execute(statement),
    }
}

/// 200 with the row that was fetched, 404 where no row has the id, 500
/// where the fetch failed for any other reason.
fn fetched(found: Result<User, QueryError>) -> (response: Response)
    ensures
        response@ == spec_fetched(row_view(found)),
{
    match found {
        Ok(user) => Response::one(Status::Success, user),
        Err(QueryError::NotFound) => Response::bare(Status::NotFound),
        Err(QueryError::Database) => Response::bare(Status::InternalServerError),
    }
}

/// Creation, first step: insert the new user and ask for the row back.
pub fn create_user(pool: Acquire, new_user: NewUser) -> (next: Next)
    ensures
        next@ == spec_create_user(pool, new_user@),
{
    connect(pool, Statement::Insert { new_user })
}

/// Creation, last step: 201 with the row as the store returned it, 500 if the
/// insert failed for whatever reason.
pub fn create_user_reply(inserted: Result<User, QueryError>) -> (response: Response)
    ensures
        response@ == spec_create_user_reply(row_view(inserted)),
{
    match inserted {
        Ok(user) => Response::one(Status::Created, user),
        Err(_) => Response::bare(Status::InternalServerError),
    }
}

/// Listing, first step: select every row.
pub fn read_users(pool: Acquire) -> (next: Next)
    ensures
        next@ == spec_read_users(pool),
{
    connect(pool, Statement::SelectAll)
}

/// Listing, last step: 200 with the rows in the order the store gave them,
/// 500 if the query failed.
pub fn read_users_reply(loaded: Result<Vec<User>, QueryError>) -> (response: Response)
    ensures
        response@ == spec_read_users_reply(rows_view(loaded)),
{
    match loaded {
        Ok(users) => Response::many(Status::Success, users),
        Err(_) => Response::bare(Status::InternalServerError),
    }
}

/// Reading one user, first step: select the row with this id.
pub fn read_user(pool: Acquire, id: i32) -> (next: Next)
    ensures
        next@ == spec_read_user(pool, id as int),
{
    connect(pool, Statement::SelectById { id })
}

/// Reading one user, last step: 200 with the row, 404 if no row has the id,
/// 500 if the fetch failed for any other reason.
pub fn read_user_reply(found: Result<User, QueryError>) -> (response: Response)
    ensures
        response@ == spec_fetched(row_view(found)),
{
    fetched(found)
}

/// Updating, first step: set the fields that are present on the row with
/// this id. An update without fields sets nothing and fetches the row.
pub fn update_user(pool: Acquire, id: i32, update: UpdateUser) -> (next: Next)
    ensures
        next@ == spec_update_user(pool, id as int, update@),
        next matches Next::Execute(statement) ==> statement@.well_formed(),
{
    if update.is_empty() {
        connect(pool, Statement::SelectById { id })
    } else {
        connect(pool, Statement::Update { id, changes: update })
    }
}

/// Updating, second step: once the update has run, however many rows it
/// touched, fetch the row with this id; 500 if the update failed.
pub fn update_user_refetch(id: i32, changed: Result<usize, QueryError>) -> (next: Next)
    ensures
        next@ == spec_update_user_refetch(id as int, count_view(changed)),
{
    match changed {
        Ok(_) => Next::Execute(Statement::SelectById { id }),
        Err(_) => Next::Respond(Response::bare(Status::InternalServerError)),
    }
}

/// Updating, last step: 200 with the row as it now stands, 404 if no row
/// has the id, 500 if the fetch failed for any other reason.
pub fn update_user_reply(found: Result<User, QueryError>) -> (response: Response)
    ensures
        response@ == spec_fetched(row_view(found)),
{
    fetched(found)
}

/// Deleting, first step: delete the row with this id.
pub fn delete_user(pool: Acquire, id: i32) -> (next: Next)
    ensures
        next@ == spec_delete_user(pool, id as int),
{
    connect(pool, Statement::Delete { id })
}

/// Deleting, last step: 204 whether or not a row was there, 500 if the
/// statement failed.
pub fn delete_user_reply(deleted: Result<usize, QueryError>) -> (response: Response)
    ensures
        response@ == spec_delete_user_reply(count_view(deleted)),
{
    match deleted {
        Ok(_) => Response::bare(Status::NoContent),
        Err(_) => Response::bare(Status::InternalServerError),
    }
}

} // verus!
