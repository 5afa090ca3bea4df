//! Adding an action.

use vstd::prelude::*;
use crate::entity::NewAction;
use crate::status;
use crate::util::ActiveValue;

verus! {

#[derive(Debug, PartialEq, Eq)]
pub struct AddActionRequest {
    pub action: String,
    pub secure: bool,
}

#[derive(Debug, PartialEq, Eq)]
pub struct AddActionResponse {
    pub id: String,
}

#[derive(Debug, PartialEq, Eq)]
pub enum PutError {
    /// The text is the database's message.
    DatabaseError(String),
}

impl PutError {
    /// The status of the error.
    pub fn status_code(&self) -> (c: u16)
        ensures
            c == status::INTERNAL_SERVER_ERROR,
    {
        match self {
            PutError::DatabaseError(_) => status::INTERNAL_SERVER_ERROR,
        }
    }
}

/// The row to insert for a new action and the answer that names it: the id is
/// `ActionID-` followed by a fresh identifier.
pub fn put(req: AddActionRequest, fresh_id: &str) -> (res: (NewAction, AddActionResponse))
    ensures
        res.0.id matches ActiveValue::Value(id) && id@ == "ActionID-"@ + fresh_id@,
        res.0.name == req.action,
        res.0.secure == req.secure,
        res.1.id@ == "ActionID-"@ + fresh_id@,
{
    let id = String::from_str("ActionID-").concat(fresh_id);
    let row = NewAction { id: ActiveValue::Value(id.clone()), name: req.action, secure: req.secure };
    (row, AddActionResponse { id })
}

} // verus!
