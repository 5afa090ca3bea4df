//! Deleting an action.

use vstd::prelude::*;
use crate::status;

verus! {

#[derive(Debug, PartialEq, Eq)]
pub struct DeleteActionRequest {
    pub id: String,
}

#[derive(Debug, PartialEq, Eq)]
pub enum DeleteError {
    /// The text is the database's message.
    DatabaseError(String),
}

impl DeleteError {
    /// The response to the error: its status and its text.
    pub fn into_response(self) -> (r: (u16, String))
        ensures
            r.0 == status::INTERNAL_SERVER_ERROR,
            r.1@ == "database error"@,
    {
        match self {
            DeleteError::DatabaseError(_) => (status::INTERNAL_SERVER_ERROR, String::from_str("database error")),
        }
    }
}

/// The answer to a deletion: success is `200 OK` whether or not a row was removed.
pub fn delete_action(deleted: Result<u64, String>) -> (res: Result<u16, DeleteError>)
    ensures
        match deleted {
            Ok(_) => res == Ok::<u16, DeleteError>(status::OK),
            Err(m) => res == Err::<u16, DeleteError>(DeleteError::DatabaseError(m)),
        },
{
    match deleted {
        Ok(_) => Ok(status::OK),
        Err(m) => Err(DeleteError::DatabaseError(m)),
    }
}

} // verus!
