//! What holds of the endpoints on a pool that has a connection to give and a
//! store on which every statement succeeds.

use vstd::prelude::*;
use crate::model::{UserView, NewUserView, UpdateUserView};
use crate::response::{ResponseView, Status};
use crate::statement::{Acquire, QueryError};
use crate::table::Table;
use crate::handlers::{
    NextView, spec_create_user, spec_create_user_reply, spec_read_users, spec_read_users_reply,
    spec_read_user, spec_fetched, spec_update_user, spec_update_user_refetch,
    spec_delete_user, spec_delete_user_reply,
};
use crate::service::{
    post_users, get_users, get_user, put_user, delete_user, Creation, after_creations,
    creation_response, distinct_ids, fresh_ids, created_by, created_record_of,
};

verus! {

/// Without a connection no endpoint runs a statement: each answers 500
/// without a body.
pub proof fn law_no_connection_answers_500(id: int, new_user: NewUserView, update: UpdateUserView)
    ensures
        spec_create_user(Acquire::Unavailable, new_user) == NextView::Respond(
            ResponseView::bare(Status::InternalServerError),
        ),
        spec_read_users(Acquire::Unavailable) == NextView::Respond(
            ResponseView::bare(Status::InternalServerError),
        ),
        spec_read_user(Acquire::Unavailable, id) == NextView::Respond(
            ResponseView::bare(Status::InternalServerError),
        ),
        spec_update_user(Acquire::Unavailable, id, update) == NextView::Respond(
            ResponseView::bare(Status::InternalServerError),
        ),
        spec_delete_user(Acquire::Unavailable, id) == NextView::Respond(
            ResponseView::bare(Status::InternalServerError),
        ),
{
}

/// A statement that fails ends a creation, a listing, an update and a
/// deletion with 500 and no body, whatever the failure was.
pub proof fn law_failed_statement_answers_500(id: int, error: QueryError)
    ensures
        spec_create_user_reply(Err(error)) == ResponseView::bare(Status::InternalServerError),
        spec_read_users_reply(Err(error)) == ResponseView::bare(Status::InternalServerError),
        spec_update_user_refetch(id, Err(error)) == NextView::Respond(
            ResponseView::bare(Status::InternalServerError),
        ),
        spec_delete_user_reply(Err(error)) == ResponseView::bare(Status::InternalServerError),
{
}

/// The fetch of one row, in reading a user and after an update alike, is the
/// one place that answers 404: it does so where no row has the id, and
/// nowhere else. A fetch that fails for any other reason answers 500, and
/// neither failure carries a body.
pub proof fn law_failed_fetch(found: Result<UserView, QueryError>)
    ensures
        found == Err::<UserView, QueryError>(QueryError::NotFound) ==> spec_fetched(found)
            == ResponseView::bare(Status::NotFound),
        found == Err::<UserView, QueryError>(QueryError::Database) ==> spec_fetched(found)
            == ResponseView::bare(Status::InternalServerError),
        spec_fetched(found).status == Status::NotFound <==> found == Err::<UserView, QueryError>(
            QueryError::NotFound,
        ),
        spec_fetched(found).status == Status::Success <==> found is Ok,
{
}

/// A creation answers 201 with a user that carries the id the store
/// assigned and the name and email exactly as they were sent. Where the
/// store assigns an id that it never assigned before, that id is the id of
/// no row in the table, whether the row is still there or was deleted since
/// its creation. The row is then in the table, and the id counts as assigned
/// from then on, so that no later creation can be given it.
pub proof fn law_create_echoes_input(table: Table, assigned: int, new_user: NewUserView)
    requires
        table.wf(),
        table.fresh(assigned),
    ensures
        post_users(table, assigned, new_user).response == ResponseView::one(
            Status::Created,
            (UserView { id: assigned, name: new_user.name, email: new_user.email }),
        ),
        post_users(table, assigned, new_user).table.wf(),
        post_users(table, assigned, new_user).table.rows == table.rows.insert(
            assigned,
            (UserView { id: assigned, name: new_user.name, email: new_user.email }),
        ),
        post_users(table, assigned, new_user).table.issued == table.issued.insert(assigned),
        !post_users(table, assigned, new_user).table.fresh(assigned),
        !table.issued.contains(assigned),
        forall|id: int| #[trigger]
            table.rows.dom().contains(id) ==> table.rows[id].id != assigned,
{
}

/// Reading the id of a creation, right after it, answers 200 with the user
/// that the creation answered with.
pub proof fn law_read_after_create(table: Table, assigned: int, new_user: NewUserView)
    requires
        table.wf(),
        table.fresh(assigned),
    ensures
        ({
            let created = post_users(table, assigned, new_user);
            let read = get_user(created.table, assigned);
            &&& read.response.status == Status::Success
            &&& read.response.body == created.response.body
            &&& read.table == created.table
        }),
{
}

/// Reading an id that has a row answers 200 with that row; reading any other
/// id, one that was never assigned among them, answers 404 without a body.
/// Neither changes the table.
pub proof fn law_read(table: Table, id: int)
    requires
        table.wf(),
    ensures
        table.rows.dom().contains(id) ==> get_user(table, id).response == ResponseView::one(
            Status::Success,
            table.rows[id],
        ),
        !table.rows.dom().contains(id) ==> get_user(table, id).response == ResponseView::bare(
            Status::NotFound,
        ),
        !table.issued.contains(id) ==> get_user(table, id).response == ResponseView::bare(
            Status::NotFound,
        ),
        get_user(table, id).table == table,
{
}

/// An update of a row that exists answers 200 with the row as it then
/// stands: each field that was sent has the value sent, each field that was
/// not sent has the stored value, and the id is the same. No other row
/// changes.
pub proof fn law_update_sets_present_fields(table: Table, id: int, update: UpdateUserView)
    requires
        table.wf(),
        table.rows.dom().contains(id),
    ensures
        put_user(table, id, update).response == ResponseView::one(
            Status::Success,
            update.apply(table.rows[id]),
        ),
        put_user(table, id, update).table.rows == table.rows.insert(
            id,
            update.apply(table.rows[id]),
        ),
        put_user(table, id, update).table.issued == table.issued,
        put_user(table, id, update).table.wf(),
{
    if update.is_empty() {
        assert(update.apply(table.rows[id]) == table.rows[id]);
        assert(table.rows.insert(id, table.rows[id]) =~= table.rows);
    }
}

/// An update that sends a name alone changes the name alone: the response
/// is 200 with the new name and the email as it was stored.
pub proof fn law_update_name_only(table: Table, id: int, name: Seq<char>)
    requires
        table.wf(),
        table.rows.dom().contains(id),
    ensures
        put_user(table, id, (UpdateUserView { name: Some(name), email: None })).response
            == ResponseView::one(
            Status::Success,
            (UserView { id, name, email: table.rows[id].email }),
        ),
{
    law_update_sets_present_fields(table, id, UpdateUserView { name: Some(name), email: None });
}

/// An update that sends no field answers 200 with the row as it is stored,
/// and leaves the table as it was.
pub proof fn law_update_without_fields(table: Table, id: int)
    requires
        table.wf(),
        table.rows.dom().contains(id),
    ensures
        put_user(table, id, (UpdateUserView { name: None, email: None })).response
            == ResponseView::one(Status::Success, table.rows[id]),
        put_user(table, id, (UpdateUserView { name: None, email: None })).table == table,
{
}

/// An update of an id that has no row answers 404 and changes nothing.
pub proof fn law_update_missing(table: Table, id: int, update: UpdateUserView)
    requires
        table.wf(),
        !table.rows.dom().contains(id),
    ensures
        put_user(table, id, update).response == ResponseView::bare(Status::NotFound),
        put_user(table, id, update).table == table,
{
}

/// A deletion answers 204 whether or not the id had a row. Afterwards the id
/// has none: reading it answers 404, and every other row is as before.
pub proof fn law_delete_then_missing(table: Table, id: int)
    requires
        table.wf(),
    ensures
        delete_user(table, id).response == ResponseView::bare(Status::NoContent),
        delete_user(table, id).table.wf(),
        delete_user(table, id).table.rows == table.rows.remove(id),
        delete_user(table, id).table.issued == table.issued,
        get_user(delete_user(table, id).table, id).response == ResponseView::bare(
            Status::NotFound,
        ),
{
}

/// Deleting the same id twice in a row answers 204 both times, and the
/// second deletion leaves the table as the first left it.
pub proof fn law_delete_twice(table: Table, id: int)
    requires
        table.wf(),
    ensures
        ({
            let first = delete_user(table, id);
            let second = delete_user(first.table, id);
            &&& first.response == ResponseView::bare(Status::NoContent)
            &&& second.response == ResponseView::bare(Status::NoContent)
            &&& second.table == first.table
        }),
{
    let first = delete_user(table, id);
    assert(first.table.rows.remove(id) =~= first.table.rows);
}

/// Listing the empty table answers 200 with an empty list.
pub proof fn law_list_empty(listing: Seq<UserView>)
    requires
        Table::empty().lists(listing),
    ensures
        get_users(Table::empty(), listing).response == ResponseView::many(
            Status::Success,
            Seq::empty(),
        ),
{
    if listing.len() > 0 {
        assert(Table::empty().holds(listing[0]));
    }
    assert(listing =~= Seq::empty());
}

/// The id of each creation of a history counts as assigned afterwards.
pub proof fn law_created_ids_stay_assigned(history: Seq<Creation>, j: int)
    requires
        0 <= j < history.len(),
    ensures
        after_creations(history).issued.contains(history[j].assigned),
    decreases history.len(),
{
    if j < history.len() - 1 {
        law_created_ids_stay_assigned(history.drop_last(), j);
    }
}

/// Where the store gives each creation an id that it never assigned before,
/// no two creations of a history have the same id.
pub proof fn law_fresh_ids_are_distinct(history: Seq<Creation>)
    requires
        fresh_ids(history),
    ensures
        distinct_ids(history),
{
    assert forall|k: int| 0 <= k < history.len() implies i32::MIN <= (
    #[trigger] history[k]).assigned <= i32::MAX by {
        assert(after_creations(history.take(k)).fresh(history[k].assigned));
    }
    assert forall|j: int, k: int| 0 <= j < k < history.len() implies (
    #[trigger] history[j]).assigned != (#[trigger] history[k]).assigned by {
        assert(after_creations(history.take(k)).fresh(history[k].assigned));
        law_created_ids_stay_assigned(history.take(k), j);
    }
}

/// A listing has as many records as the table has rows.
pub proof fn law_listing_length(table: Table, listing: Seq<UserView>)
    requires
        table.wf(),
        table.lists(listing),
    ensures
        listing.len() == table.rows.dom().len(),
{
    let ids = listing.map_values(|user: UserView| user.id);
    assert(ids.no_duplicates()) by {
        assert forall|i: int, j: int| 0 <= i < ids.len() && 0 <= j < ids.len() && i != j implies ids[i]
            != ids[j] by {
            if i < j {
                assert(listing[i].id != listing[j].id);
            } else {
                assert(listing[j].id != listing[i].id);
            }
        }
    }
    assert(ids.to_set() =~= table.rows.dom()) by {
        assert forall|id: int| ids.to_set().contains(id) <==> table.rows.dom().contains(id) by {
            if ids.to_set().contains(id) {
                let i = choose|i: int| 0 <= i < ids.len() && ids[i] == id;
                assert(table.holds(listing[i]));
            }
            if table.rows.dom().contains(id) {
                let i = choose|i: int| 0 <= i < listing.len() && (#[trigger] listing[i]).id == id;
                assert(ids[i] == id);
            }
        }
    }
    ids.unique_seq_to_set();
}

/// After the creations of a history on an empty table, the table holds one
/// row for each of them, under the id it was assigned, and no other row.
pub proof fn law_rows_after_creations(history: Seq<Creation>)
    requires
        distinct_ids(history),
    ensures
        after_creations(history).wf(),
        after_creations(history).rows.dom().len() == history.len(),
        forall|k: int|
            0 <= k < history.len() ==> after_creations(history).holds(
                Table::new_row((#[trigger] history[k]).assigned, history[k].new_user),
            ),
        forall|id: int| #[trigger]
            after_creations(history).rows.dom().contains(id) ==> exists|k: int|
                0 <= k < history.len() && (#[trigger] history[k]).assigned == id,
    decreases history.len(),
{
    if history.len() > 0 {
        let earlier = history.drop_last();
        let last = history.last();
        assert forall|k: int| 0 <= k < earlier.len() implies earlier[k] == history[k] by {}
        law_rows_after_creations(earlier);
        let before = after_creations(earlier);
        let now = after_creations(history);
        assert(now.rows == before.rows.insert(last.assigned, Table::new_row(last.assigned, last.new_user)));
        if before.rows.dom().contains(last.assigned) {
            let k = choose|k: int| 0 <= k < earlier.len() && (#[trigger] earlier[k]).assigned == last.assigned;
            assert(history[k].assigned != history[history.len() - 1].assigned);
        }
        assert forall|k: int| 0 <= k < history.len() implies now.holds(
            Table::new_row((#[trigger] history[k]).assigned, history[k].new_user),
        ) by {
            if k < earlier.len() {
                assert(earlier[k] == history[k]);
                assert(before.holds(Table::new_row(earlier[k].assigned, earlier[k].new_user)));
                assert(history[k].assigned != history[history.len() - 1].assigned);
            }
        }
        assert forall|id: int| #[trigger] now.rows.dom().contains(id) implies exists|k: int|
            0 <= k < history.len() && (#[trigger] history[k]).assigned == id by {
            if id == last.assigned {
                assert(history[history.len() - 1].assigned == id);
            } else {
                assert(before.rows.dom().contains(id));
                let k = choose|k: int| 0 <= k < earlier.len() && (#[trigger] earlier[k]).assigned == id;
                assert(history[k].assigned == id);
            }
        }
    }
}

/// A creation of a history answered 201 with the row made of what was sent
/// and the id that the store assigned.
pub proof fn law_creation_response(history: Seq<Creation>, k: int)
    requires
        0 <= k < history.len(),
    ensures
        creation_response(history, k) == ResponseView::one(
            Status::Created,
            Table::new_row(history[k].assigned, history[k].new_user),
        ),
{
}

/// After N creations on an empty table, a listing answers 200 with exactly
/// N records; each record is the user that one of the creations answered
/// with, and each creation's user is among the records.
pub proof fn law_list_after_creations(history: Seq<Creation>, listing: Seq<UserView>)
    requires
        distinct_ids(history),
        after_creations(history).lists(listing),
    ensures
        get_users(after_creations(history), listing).response == ResponseView::many(
            Status::Success,
            listing,
        ),
        get_users(after_creations(history), listing).table == after_creations(history),
        listing.len() == history.len(),
        forall|i: int| 0 <= i < listing.len() ==> created_by(history, #[trigger] listing[i]),
        forall|k: int|
            0 <= k < history.len() ==> created_record_of(
                listing,
                #[trigger] creation_response(history, k),
            ),
{
    let table = after_creations(history);
    assert(listing.len() == history.len()) by {
        law_rows_after_creations(history);
        law_listing_length(table, listing);
    }
    assert forall|i: int| 0 <= i < listing.len() implies created_by(
        history,
        #[trigger] listing[i],
    ) by {
        let k = lemma_record_was_created(history, listing, i);
        law_creation_response(history, k);
    }
    assert forall|k: int| 0 <= k < history.len() implies created_record_of(
        listing,
        #[trigger] creation_response(history, k),
    ) by {
        let i = lemma_creation_is_listed(history, listing, k);
        law_creation_response(history, k);
    }
}

/// The creation that made the record at `i` of a listing.
proof fn lemma_record_was_created(history: Seq<Creation>, listing: Seq<UserView>, i: int) -> (k:
    int)
    requires
        distinct_ids(history),
        after_creations(history).lists(listing),
        0 <= i < listing.len(),
    ensures
        0 <= k < history.len(),
        listing[i] == Table::new_row(history[k].assigned, history[k].new_user),
{
    let table = after_creations(history);
    law_rows_after_creations(history);
    assert(table.holds(listing[i]));
    let k = choose|k: int| 0 <= k < history.len() && (#[trigger] history[k]).assigned == listing[i].id;
    assert(table.holds(Table::new_row(history[k].assigned, history[k].new_user)));
    k
}

/// The place in a listing of the record that the creation at `k` made.
proof fn lemma_creation_is_listed(history: Seq<Creation>, listing: Seq<UserView>, k: int) -> (i:
    int)
    requires
        distinct_ids(history),
        after_creations(history).lists(listing),
        0 <= k < history.len(),
    ensures
        0 <= i < listing.len(),
        listing[i] == Table::new_row(history[k].assigned, history[k].new_user),
{
    let table = after_creations(history);
    law_rows_after_creations(history);
    assert(table.holds(Table::new_row(history[k].assigned, history[k].new_user)));
    let i = choose|i: int| 0 <= i < listing.len() && (#[trigger] listing[i]).id == history[k].assigned;
    assert(table.holds(listing[i]));
    i
}

} // verus!
