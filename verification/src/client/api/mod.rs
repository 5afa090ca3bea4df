//! The requests the client sends.

pub mod app;
pub mod user;
pub mod well_known;

use vstd::prelude::*;

verus! {

#[derive(Debug, PartialEq, Eq)]
/// An error the service answered with.
pub struct ApiError {
    pub code: String,
    pub error: String,
}

#[derive(Debug, PartialEq, Eq)]
/// A reply of the service: an error, or the data.
pub enum ErrorOr<T> {
    Error(ApiError),
    Data(T),
}

/// The outcome of a reply.
pub fn resolve<T>(reply: ErrorOr<T>) -> (res: Result<T, ApiError>)
    ensures
        match reply {
            ErrorOr::Error(e) => res == Err::<T, ApiError>(e),
            ErrorOr::Data(t) => res == Ok::<T, ApiError>(t),
        },
{
    match reply {
        ErrorOr::Error(e) => Err(e),
        ErrorOr::Data(t) => Ok(t),
    }
}

/// The value of the `Authorization` header of a request, when the client holds a token.
pub fn authorization(token: &Option<String>) -> (v: Option<String>)
    ensures
        match token {
            Some(t) => v matches Some(s) && s@ == "Bearer "@ + t@,
            None => v is None,
        },
{
    match token {
        Some(t) => Some(crate::client::utils::bearer_header_value(t.as_str())),
        None => None,
    }
}

} // verus!
