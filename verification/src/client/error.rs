//! The errors the client reports.

use vstd::prelude::*;
use crate::client::utils::Either;

verus! {

#[verifier::external_type_specification]
#[verifier::external_body]
pub struct ExReqwestError(reqwest::Error);

#[derive(Debug, PartialEq, Eq)]
/// An error the service answered with.
pub struct ErrorMessage {
    pub code: String,
    pub message: String,
}

#[derive(Debug)]
pub enum ClientError {
    /// The service answered with an error.
    Iam(ErrorMessage),
    /// The request failed.
    Reqwest(reqwest::Error),
}

/// A reply of the service: the data, or the error it answered with.
pub fn unwrap_res<T>(either: Either<T, ErrorMessage>) -> (res: Result<T, ClientError>)
    ensures
        match either {
            Either::Left(t) => res == Ok::<T, ClientError>(t),
            Either::Right(m) => res == Err::<T, ClientError>(ClientError::Iam(m)),
        },
{
    match either {
        Either::Left(t) => Ok(t),
        Either::Right(err) => Err(ClientError::Iam(err)),
    }
}

} // verus!
