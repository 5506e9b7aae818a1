//! What a handler answers: a status and, with some of them, a body.

use vstd::prelude::*;
use crate::model::{User, UserView, users_view};

verus! {

/// The statuses that the handlers answer with.
#[derive(Debug, Clone, Copy, PartialEq, Eq, Structural)]
pub enum Status {
    /// 200
    Success,
    /// 201
    Created,
    /// 204
    NoContent,
    /// 404
    NotFound,
    /// 500
    InternalServerError,
}

impl Status {
    /// The status as the number that goes on the wire.
    pub open spec fn spec_code(self) -> int {
        match self {
            Status::Success => 200,
            Status::Created => 201,
            Status::NoContent => 204,
            Status::NotFound => 404,
            Status::InternalServerError => 500,
        }
    }

    /// The status as the number that goes on the wire.
    pub fn code(self) -> (r: u16)
        ensures
            r == self.spec_code(),
    {
        match self {
            Status::Success => 200,
            Status::Created => 201,
            Status::NoContent => 204,
            Status::NotFound => 404,
            Status::InternalServerError => 500,
        }
    }

}

/// The body of a response. Errors and deletions carry none.
#[derive(Debug, Clone, PartialEq, Eq)]
pub enum Body {
    Empty,
    One(User),
    Many(Vec<User>),
}

/// The mathematical value of a [`Body`].
pub enum BodyView {
    Empty,
    One(UserView),
    Many(Seq<UserView>),
}

impl View for Body {
    type V = BodyView;

    open spec fn view(&self) -> BodyView {
        match *self {
            Body::Empty => BodyView::Empty,
            Body::One(user) => BodyView::One(user@),
            Body::Many(users) => BodyView::Many(users_view(users)),
        }
    }
}

/// A response: the status, and the body that goes with it.
#[derive(Debug, Clone, PartialEq, Eq)]
pub struct Response {
    pub status: Status,
    pub body: Body,
}

/// The mathematical value of a [`Response`].
pub struct ResponseView {
    pub status: Status,
    pub body: BodyView,
}

impl View for Response {
    type V = ResponseView;

    open spec fn view(&self) -> ResponseView {
        ResponseView { status: self.status, body: self.body@ }
    }
}

impl ResponseView {
    /// A response of `status` alone.
    pub open spec fn bare(status: Status) -> ResponseView {
        ResponseView { status, body: BodyView::Empty }
    }

    /// A response of `status` with one user.
    pub open spec fn one(status: Status, user: UserView) -> ResponseView {
        ResponseView { status, body: BodyView::One(user) }
    }

    /// A response of `status` with a list of users.
    pub open spec fn many(status: Status, users: Seq<UserView>) -> ResponseView {
        ResponseView { status, body: BodyView::Many(users) }
    }
}

impl Response {
    /// A response of `status` alone.
    pub fn bare(status: Status) -> (r: Response)
        ensures
            r@ == ResponseView::bare(status),
    {
        Response { status, body: Body::Empty }
    }

    /// A response of `status` with one user.
    pub fn one(status: Status, user: User) -> (r: Response)
        ensures
            r@ == ResponseView::one(status, user@),
    {
        Response { status, body: Body::One(user) }
    }

    /// A response of `status` with a list of users.
    pub fn many(status: Status, users: Vec<User>) -> (r: Response)
        ensures
            r@ == ResponseView::many(status, users_view(users)),
    {
        Response { status, body: Body::Many(users) }
    }
}

} // verus!
