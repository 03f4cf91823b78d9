//! What a handler hands back: a record, a list of records, or the kind of
//! failure, and the HTTP status each of them is sent with.

use crate::user::{views, User, UserView};
use vstd::prelude::*;

verus! {

/// Why a request was not served.
#[derive(Clone, Copy, Debug, PartialEq, Eq, Structural)]
pub enum Failure {
    /// The identifier in the path is not a well-formed identifier.
    BadRequest,
    /// No record answers the request.
    NotFound,
    /// The store failed, or reported that nothing was changed.
    ServerError,
}

impl Failure {
    /// The status code this failure is reported with.
    pub open spec fn code(self) -> int {
        match self {
            Failure::BadRequest => 400,
            Failure::NotFound => 404,
            Failure::ServerError => 500,
        }
    }

    /// The HTTP status of the (empty-bodied) response for this failure.
    pub fn status(self) -> (code: u16)
        ensures
            code == self.code(),
    {
        match self {
            Failure::BadRequest => 400,
            Failure::NotFound => 404,
            Failure::ServerError => 500,
        }
    }
}

/// The answer to one request.
#[derive(Debug, PartialEq, Eq)]
pub enum Response {
    /// Success, with one record as the body.
    One(User),
    /// Success, with a list of records as the body.
    Many(Vec<User>),
    /// A failure; the body is empty.
    Failed(Failure),
}

/// What a `Response` stands for.
pub enum ResponseView {
    One(UserView),
    Many(Seq<UserView>),
    Failed(Failure),
}

impl ResponseView {
    /// The status code this response is sent with: 200 for a success, else
    /// the code of the failure.
    pub open spec fn code(self) -> int {
        match self {
            ResponseView::One(_) => 200,
            ResponseView::Many(_) => 200,
            ResponseView::Failed(failure) => failure.code(),
        }
    }
}

impl View for Response {
    type V = ResponseView;

    open spec fn view(&self) -> ResponseView {
        match *self {
            Response::One(user) => ResponseView::One(user@),
            Response::Many(users) => ResponseView::Many(views(users@)),
            Response::Failed(failure) => ResponseView::Failed(failure),
        }
    }
}

impl Response {
    /// The HTTP status of this response.
    pub fn status(&self) -> (code: u16)
        ensures
            code == self@.code(),
    {
        match self {
            Response::One(_) => 200,
            Response::Many(_) => 200,
            Response::Failed(failure) => failure.status(),
        }
    }
}

} // verus!
