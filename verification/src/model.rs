//! The user entity and the two payloads that write it.

use vstd::prelude::*;

verus! {

/// A stored user: the store assigns `id` on insert and never changes it.
#[derive(Debug, Clone, PartialEq, Eq)]
pub struct User {
    pub id: i32,
    pub name: String,
    pub email: String,
}

/// The mathematical value of a [`User`].
pub struct UserView {
    pub id: int,
    pub name: Seq<char>,
    pub email: Seq<char>,
}

impl View for User {
    type V = UserView;

    open spec fn view(&self) -> UserView {
        UserView { id: self.id as int, name: self.name@, email: self.email@ }
    }
}

/// The payload of a creation: both fields are required.
#[derive(Debug, Clone, PartialEq, Eq)]
pub struct NewUser {
    pub name: String,
    pub email: String,
}

/// The mathematical value of a [`NewUser`].
pub struct NewUserView {
    pub name: Seq<char>,
    pub email: Seq<char>,
}

impl View for NewUser {
    type V = NewUserView;

    open spec fn view(&self) -> NewUserView {
        NewUserView { name: self.name@, email: self.email@ }
    }
}

/// The payload of an update: a field that is absent keeps its stored value.
#[derive(Debug, Clone, PartialEq, Eq)]
pub struct UpdateUser {
    pub name: Option<String>,
    pub email: Option<String>,
}

/// The mathematical value of an [`UpdateUser`].
pub struct UpdateUserView {
    pub name: Option<Seq<char>>,
    pub email: Option<Seq<char>>,
}

impl UpdateUserView {
    /// No field is present: the update changes nothing.
    pub open spec fn is_empty(self) -> bool {
        self.name is None && self.email is None
    }

    /// The row that `row` becomes under this update: present fields replace,
    /// absent fields stay, the id is untouched.
    pub open spec fn apply(self, row: UserView) -> UserView {
        UserView {
            id: row.id,
            name: match self.name {
                Some(n) => n,
                None => row.name,
            },
            email: match self.email {
                Some(e) => e,
                None => row.email,
            },
        }
    }
}

/// The view of an optional text field.
pub open spec fn field_view(field: Option<String>) -> Option<Seq<char>> {
    match field {
        Some(s) => Some(s@),
        None => None,
    }
}

impl View for UpdateUser {
    type V = UpdateUserView;

    open spec fn view(&self) -> UpdateUserView {
        UpdateUserView { name: field_view(self.name), email: field_view(self.email) }
    }
}

impl UpdateUser {
    /// Whether the payload names no field at all.
    pub fn is_empty(&self) -> (r: bool)
        ensures
            r == self@.is_empty(),
    {
        self.name.is_none() && self.email.is_none()
    }
}

/// The views of a list of users, in the same order.
pub open spec fn users_view(users: Vec<User>) -> Seq<UserView> {
    Seq::new(users@.len(), |i: int| users@[i]@)
}

} // verus!
