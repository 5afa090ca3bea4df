//! Reading one action.

use vstd::prelude::*;
use crate::entity::ActionModel;
use crate::status;

verus! {

#[derive(Debug, PartialEq, Eq)]
pub struct GetResponse {
    pub id: String,
    pub name: String,
    pub secure: bool,
}

#[derive(Debug, PartialEq, Eq)]
pub enum GetError {
    /// The text is the database's message.
    DatabaseError(String),
    NotFoundError,
}

impl GetError {
    pub open spec fn status_code_spec(&self) -> u16 {
        match self {
            GetError::DatabaseError(_) => status::INTERNAL_SERVER_ERROR,
            GetError::NotFoundError => status::NOT_FOUND,
        }
    }

    pub open spec fn message_spec(&self) -> Seq<char> {
        match self {
            GetError::DatabaseError(_) => "database error"@,
            GetError::NotFoundError => "not found"@,
        }
    }

    /// The response to the error: its status and its text.
    pub fn into_response(self) -> (r: (u16, String))
        ensures
            r.0 == self.status_code_spec(),
            r.1@ == self.message_spec(),
    {
        match self {
            GetError::DatabaseError(_) => (status::INTERNAL_SERVER_ERROR, String::from_str("database error")),
            GetError::NotFoundError => (status::NOT_FOUND, String::from_str("not found")),
        }
    }
}

/// The answer to a lookup of an action by id: its fields, or not found.
pub fn get_action(found: Result<Option<ActionModel>, String>) -> (res: Result<GetResponse, GetError>)
    ensures
        match found {
            Err(m) => res == Err::<GetResponse, GetError>(GetError::DatabaseError(m)),
            Ok(None) => res == Err::<GetResponse, GetError>(GetError::NotFoundError),
            Ok(Some(a)) => res == Ok::<GetResponse, GetError>(GetResponse { id: a.id, name: a.name, secure: a.secure }),
        },
{
    match found {
        Err(m) => Err(GetError::DatabaseError(m)),
        Ok(None) => Err(GetError::NotFoundError),
        Ok(Some(a)) => Ok(GetResponse { id: a.id, name: a.name, secure: a.secure }),
    }
}

} // verus!
