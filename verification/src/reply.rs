//! The answers that the HTTP handlers give, and the outcome of a lookup
//! that they decide on.

use vstd::prelude::*;

verus! {

/// The HTTP statuses that the handlers answer with.
#[derive(Debug, Clone, Copy, PartialEq, Eq, Structural)]
pub enum Status {
    Success,
    Created,
    Accepted,
    BadRequest,
    Unauthorized,
    NotFound,
    InternalServerError,
    ServiceUnavailable,
}

/// The numeric HTTP code of a status.
pub open spec fn status_code(s: Status) -> u16 {
    match s {
        Status::Success => 200,
        Status::Created => 201,
        Status::Accepted => 202,
        Status::BadRequest => 400,
        Status::Unauthorized => 401,
        Status::NotFound => 404,
        Status::InternalServerError => 500,
        Status::ServiceUnavailable => 503,
    }
}

impl Status {
    /// The numeric HTTP code.
    pub fn code(&self) -> (c: u16)
        ensures
            c == status_code(*self),
    {
        match self {
            Status::Success => 200,
            Status::Created => 201,
            Status::Accepted => 202,
            Status::BadRequest => 400,
            Status::Unauthorized => 401,
            Status::NotFound => 404,
            Status::InternalServerError => 500,
            Status::ServiceUnavailable => 503,
        }
    }
}

/// The outcome of a lookup in a store: the value, no value, or a failure of
/// the store.
#[derive(Debug, Clone)]
pub enum Fetch<T> {
    Found(T),
    Missing,
    Failed,
}

} // verus!
