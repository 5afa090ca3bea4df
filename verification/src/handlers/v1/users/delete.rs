//! Deleting a user.

use vstd::prelude::*;
use crate::status;

verus! {

#[derive(Debug, PartialEq, Eq)]
pub struct DeleteUserRequest {
    pub id: String,
}

#[derive(Debug, PartialEq, Eq)]
pub enum DeleteError {
    /// The text is the database's message.
    DatabaseError(String),
    NotFoundError,
}

impl DeleteError {
    pub open spec fn status_code_spec(&self) -> u16 {
        match self {
            DeleteError::DatabaseError(_) => status::INTERNAL_SERVER_ERROR,
            DeleteError::NotFoundError => status::NOT_FOUND,
        }
    }

    pub open spec fn message_spec(&self) -> Seq<char> {
        match self {
            DeleteError::DatabaseError(_) => "database error"@,
            DeleteError::NotFoundError => "user not found"@,
        }
    }

    /// The response to the error: its status and its text.
    pub fn into_response(self) -> (r: (u16, String))
        ensures
            r.0 == self.status_code_spec(),
            r.1@ == self.message_spec(),
    {
        match self {
            DeleteError::DatabaseError(_) => (status::INTERNAL_SERVER_ERROR, String::from_str("database error")),
            DeleteError::NotFoundError => (status::NOT_FOUND, String::from_str("user not found")),
        }
    }
}

/// The answer to a deletion that removed `rows_affected` rows: no user means not found.
pub fn delete_user(rows_affected: u64) -> (res: Result<u16, DeleteError>)
    ensures
        rows_affected == 0 ==> res == Err::<u16, DeleteError>(DeleteError::NotFoundError),
        rows_affected != 0 ==> res == Ok::<u16, DeleteError>(status::NO_CONTENT),
{
    if rows_affected == 0 {
        Err(DeleteError::NotFoundError)
    } else {
        Ok(status::NO_CONTENT)
    }
}

} // verus!
