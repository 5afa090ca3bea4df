//! Reading one user.

use vstd::prelude::*;
use crate::entity::UserModel;
use crate::status;

verus! {

#[derive(Debug, PartialEq, Eq)]
pub struct GetUserResponse {
    pub id: String,
    pub name: String,
    pub email: String,
}

#[derive(Debug, PartialEq, Eq)]
pub enum GetError {
    /// The text is the database's message.
    DatabaseError(String),
    NotFoundError,
}

impl GetError {
    pub open spec fn status_code_spec(&self) -> u16 {
        match self {
            GetError::DatabaseError(_) => status::INTERNAL_SERVER_ERROR,
            GetError::NotFoundError => status::NOT_FOUND,
        }
    }

    pub open spec fn message_spec(&self) -> Seq<char> {
        match self {
            GetError::DatabaseError(_) => "database error"@,
            GetError::NotFoundError => "user not found"@,
        }
    }

    /// The response to the error: its status and its text.
    pub fn into_response(self) -> (r: (u16, String))
        ensures
            r.0 == self.status_code_spec(),
            r.1@ == self.message_spec(),
    {
        match self {
            GetError::DatabaseError(_) => (status::INTERNAL_SERVER_ERROR, String::from_str("database error")),
            GetError::NotFoundError => (status::NOT_FOUND, String::from_str("user not found")),
        }
    }
}

/// The answer to a lookup of a user by id: the user's public fields, or not found.
pub fn get_user(found: Result<Option<UserModel>, String>) -> (res: Result<GetUserResponse, GetError>)
    ensures
        match found {
            Err(m) => res == Err::<GetUserResponse, GetError>(GetError::DatabaseError(m)),
            Ok(None) => res == Err::<GetUserResponse, GetError>(GetError::NotFoundError),
            Ok(Some(u)) => res == Ok::<GetUserResponse, GetError>(GetUserResponse { id: u.id, name: u.name, email: u.email }),
        },
{
    match found {
        Err(m) => Err(GetError::DatabaseError(m)),
        Ok(None) => Err(GetError::NotFoundError),
        Ok(Some(u)) => Ok(GetUserResponse { id: u.id, name: u.name, email: u.email }),
    }
}

} // verus!
