//! Writing the fields of an action.

use vstd::prelude::*;
use crate::entity::ActionUpdate;
use crate::status;
use crate::util::{ActiveValue, option_value, set_option};

verus! {

#[derive(Debug, PartialEq, Eq)]
pub struct UpdateActionRequest {
    pub id: String,
    pub name: Option<String>,
    pub secure: Option<bool>,
}

#[derive(Debug, PartialEq, Eq)]
pub enum PostError {
    /// The text is the database's message.
    DatabaseError(String),
}

impl PostError {
    /// The status of the error.
    pub fn status_code(&self) -> (c: u16)
        ensures
            c == status::INTERNAL_SERVER_ERROR,
    {
        match self {
            PostError::DatabaseError(_) => status::INTERNAL_SERVER_ERROR,
        }
    }
}

/// The columns to write: the id, and each field the request gives.
pub fn post(req: UpdateActionRequest) -> (u: ActionUpdate)
    ensures
        u.id == ActiveValue::Value(req.id),
        u.name == option_value(req.name),
        u.secure == option_value(req.secure),
{
    ActionUpdate {
        id: ActiveValue::Value(req.id),
        name: set_option(req.name),
        secure: set_option(req.secure),
    }
}

} // verus!
