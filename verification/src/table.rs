//! A model of the table of users, as a store in good health keeps it.
//!
//! The table itself lives outside this library. The model says what each
//! statement does when it succeeds, so that the handlers can be followed
//! from request to response.

use vstd::prelude::*;
use crate::model::{UserView, NewUserView, UpdateUserView};
use crate::statement::{QueryError, StatementView};

verus! {

/// The rows of the table by id, and every id that was ever assigned.
pub struct Table {
    pub rows: Map<int, UserView>,
    pub issued: Set<int>,
}

impl Table {
    /// Each row is stored under its own id, which fits the id column, and
    /// the id of each row counts as assigned.
    pub open spec fn wf(self) -> bool {
        &&& self.rows.dom().finite()
        &&& forall|id: int| #[trigger]
            self.rows.dom().contains(id) ==> {
                &&& self.rows[id].id == id
                &&& self.issued.contains(id)
                &&& i32::MIN <= id <= i32::MAX
            }
    }

    /// The table before any insert.
    pub open spec fn empty() -> Table {
        Table { rows: Map::empty(), issued: Set::empty() }
    }

    /// Whether the store may assign `id` to the next row: it fits the id
    /// column and was never assigned before.
    pub open spec fn fresh(self, id: int) -> bool {
        i32::MIN <= id <= i32::MAX && !self.issued.contains(id)
    }

    /// The row that an insert of `new_user` creates under `id`.
    pub open spec fn new_row(id: int, new_user: NewUserView) -> UserView {
        UserView { id, name: new_user.name, email: new_user.email }
    }

    /// The table after an insert to which the store assigned `id`.
    pub open spec fn insert(self, id: int, new_user: NewUserView) -> Table {
        Table {
            rows: self.rows.insert(id, Self::new_row(id, new_user)),
            issued: self.issued.insert(id),
        }
    }

    /// What fetching the first row with `id` gives.
    pub open spec fn find(self, id: int) -> Result<UserView, QueryError> {
        if self.rows.dom().contains(id) {
            Ok(self.rows[id])
        } else {
            Err(QueryError::NotFound)
        }
    }

    /// The table after setting the present fields of `changes` on the row
    /// with `id`; without such a row nothing changes.
    pub open spec fn update(self, id: int, changes: UpdateUserView) -> Table {
        if self.rows.dom().contains(id) {
            Table { rows: self.rows.insert(id, changes.apply(self.rows[id])), issued: self.issued }
        } else {
            self
        }
    }

    /// The table after deleting the row with `id`. The id stays assigned.
    pub open spec fn delete(self, id: int) -> Table {
        Table { rows: self.rows.remove(id), issued: self.issued }
    }

    /// How many rows have `id`.
    pub open spec fn matching(self, id: int) -> nat {
        if self.rows.dom().contains(id) {
            1
        } else {
            0
        }
    }

    /// Whether `row` is in the table, under its own id.
    pub open spec fn holds(self, row: UserView) -> bool {
        self.rows.dom().contains(row.id) && self.rows[row.id] == row
    }

    /// Whether `listing` is the table read out in some order: each row once,
    /// and nothing else.
    pub open spec fn lists(self, listing: Seq<UserView>) -> bool {
        &&& forall|i: int| 0 <= i < listing.len() ==> self.holds(#[trigger] listing[i])
        &&& forall|i: int, j: int|
            0 <= i < j < listing.len() ==> (#[trigger] listing[i]).id != (#[trigger] listing[j]).id
        &&& forall|id: int| #[trigger]
            self.rows.dom().contains(id) ==> exists|i: int|
                0 <= i < listing.len() && (#[trigger] listing[i]).id == id
    }

    /// The table after `statement` succeeded; `assigned` is the id that the
    /// store gives to a row it inserts.
    pub open spec fn after(self, statement: StatementView, assigned: int) -> Table {
        match statement {
            StatementView::Insert { new_user } => self.insert(assigned, new_user),
            StatementView::Update { id, changes } => self.update(id, changes),
            StatementView::Delete { id } => self.delete(id),
            StatementView::SelectAll => self,
            StatementView::SelectById { .. } => self,
        }
    }

    /// What the store answers when the first row of `statement`'s result is
    /// asked for: the inserted row, or the row that was selected. A statement
    /// that returns no rows has no first row.
    pub open spec fn first_row(self, statement: StatementView, assigned: int) -> Result<
        UserView,
        QueryError,
    > {
        match statement {
            StatementView::Insert { new_user } => Ok(Self::new_row(assigned, new_user)),
            StatementView::SelectById { id } => self.find(id),
            _ => Err(QueryError::NotFound),
        }
    }

    /// How many rows `statement` touches on this table.
    pub open spec fn touched(self, statement: StatementView) -> nat {
        match statement {
            StatementView::Insert { .. } => 1,
            StatementView::Update { id, .. } => self.matching(id),
            StatementView::Delete { id } => self.matching(id),
            _ => 0,
        }
    }
}

} // verus!
