//! Each endpoint followed from request to response, on a pool that has a
//! connection to give and a store on which every statement succeeds.

use vstd::prelude::*;
use crate::model::{UserView, NewUserView, UpdateUserView};
use crate::response::{ResponseView, Status};
use crate::statement::{Acquire, StatementView};
use crate::table::Table;
use crate::handlers::{
    NextView, spec_create_user, spec_create_user_reply, spec_read_users, spec_read_users_reply,
    spec_read_user, spec_fetched, spec_update_user, spec_update_user_refetch, spec_delete_user,
    spec_delete_user_reply,
};

verus! {

/// A request that was served: the table as it stands afterwards, and the
/// response that went out.
pub struct Served {
    pub table: Table,
    pub response: ResponseView,
}

/// POST /users with `new_user`, where the store assigns `assigned`.
pub open spec fn post_users(table: Table, assigned: int, new_user: NewUserView) -> Served {
    match spec_create_user(Acquire::Ready, new_user) {
        NextView::Respond(response) => Served { table, response },
        NextView::Execute(insert) => Served {
            table: table.after(insert, assigned),
            response: spec_create_user_reply(table.first_row(insert, assigned)),
        },
    }
}

/// GET /users, where the store reads the rows out as `listing`.
pub open spec fn get_users(table: Table, listing: Seq<UserView>) -> Served {
    match spec_read_users(Acquire::Ready) {
        NextView::Respond(response) => Served { table, response },
        NextView::Execute(select) => Served {
            table: table.after(select, 0),
            response: spec_read_users_reply(Ok(listing)),
        },
    }
}

/// GET /users/{id}.
pub open spec fn get_user(table: Table, id: int) -> Served {
    match spec_read_user(Acquire::Ready, id) {
        NextView::Respond(response) => Served { table, response },
        NextView::Execute(select) => Served {
            table: table.after(select, 0),
            response: spec_fetched(table.first_row(select, 0)),
        },
    }
}

/// PUT /users/{id} with `update`: where the handler starts with an update,
/// the row is fetched once the update has run; where it starts with the
/// fetch, that is all.
pub open spec fn put_user(table: Table, id: int, update: UpdateUserView) -> Served {
    match spec_update_user(Acquire::Ready, id, update) {
        NextView::Respond(response) => Served { table, response },
        NextView::Execute(first) => match first {
            StatementView::Update { .. } => {
                let changed = table.after(first, 0);
                match spec_update_user_refetch(id, Ok(table.touched(first))) {
                    NextView::Respond(response) => Served { table: changed, response },
                    NextView::Execute(select) => Served {
                        table: changed.after(select, 0),
                        response: spec_fetched(changed.first_row(select, 0)),
                    },
                }
            },
            _ => Served {
                table: table.after(first, 0),
                response: spec_fetched(table.first_row(first, 0)),
            },
        },
    }
}

/// DELETE /users/{id}.
pub open spec fn delete_user(table: Table, id: int) -> Served {
    match spec_delete_user(Acquire::Ready, id) {
        NextView::Respond(response) => Served { table, response },
        NextView::Execute(delete) => Served {
            table: table.after(delete, 0),
            response: spec_delete_user_reply(Ok(table.touched(delete))),
        },
    }
}

/// One creation that was served: what was sent, and the id that the store
/// assigned to the row.
pub struct Creation {
    pub assigned: int,
    pub new_user: NewUserView,
}

/// The table after the creations of `history`, one after the other, on a
/// table that was empty.
pub open spec fn after_creations(history: Seq<Creation>) -> Table
    decreases history.len(),
{
    if history.len() == 0 {
        Table::empty()
    } else {
        post_users(
            after_creations(history.drop_last()),
            history.last().assigned,
            history.last().new_user,
        ).table
    }
}

/// What the creation at `k` of `history` answered.
pub open spec fn creation_response(history: Seq<Creation>, k: int) -> ResponseView {
    post_users(after_creations(history.take(k)), history[k].assigned, history[k].new_user).response
}

/// Whether one of the creations of `history` answered 201 with `user`.
pub open spec fn created_by(history: Seq<Creation>, user: UserView) -> bool {
    exists|k: int|
        0 <= k < history.len() && #[trigger] creation_response(history, k) == ResponseView::one(
            Status::Created,
            user,
        )
}

/// Whether `response` is 201 with one of the records of `listing`.
pub open spec fn created_record_of(listing: Seq<UserView>, response: ResponseView) -> bool {
    exists|i: int|
        0 <= i < listing.len() && response == ResponseView::one(
            Status::Created,
            #[trigger] listing[i],
        )
}

/// Each creation of `history` was given an id that fits the id column and
/// that the store had never assigned when the creation ran.
pub open spec fn fresh_ids(history: Seq<Creation>) -> bool {
    forall|k: int|
        0 <= k < history.len() ==> after_creations(#[trigger] history.take(k)).fresh(
            history[k].assigned,
        )
}

/// The store gave each creation of `history` an id of its own, one that fits
/// the id column.
pub open spec fn distinct_ids(history: Seq<Creation>) -> bool {
    &&& forall|k: int|
        0 <= k < history.len() ==> i32::MIN <= (#[trigger] history[k]).assigned <= i32::MAX
    &&& forall|j: int, k: int|
        0 <= j < k < history.len() ==> (#[trigger] history[j]).assigned != (
        #[trigger] history[k]).assigned
}

} // verus!
