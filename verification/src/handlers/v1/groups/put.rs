//! Adding a group.

use vstd::prelude::*;
use crate::entity::NewGroup;
use crate::status;

verus! {

#[derive(Debug, PartialEq, Eq)]
pub struct AddGroupRequest {
    pub name: String,
}

#[derive(Debug, PartialEq, Eq)]
pub struct AddGroupResponse {
    pub id: String,
}

#[derive(Debug, PartialEq, Eq)]
pub enum PutError {
    /// The text is the database's message.
    DatabaseError(String),
}

impl PutError {
    /// The response to the error: its status and its text.
    pub fn into_response(self) -> (r: (u16, String))
        ensures
            r.0 == status::INTERNAL_SERVER_ERROR,
            r.1@ == "database error"@,
    {
        match self {
            PutError::DatabaseError(_) => (status::INTERNAL_SERVER_ERROR, String::from_str("database error")),
        }
    }
}

/// The row to insert for a new group and the answer that names it: the id is
/// `GroupID-` followed by a fresh identifier, and the row holds only the name.
pub fn add_group(req: AddGroupRequest, fresh_id: &str) -> (res: (NewGroup, AddGroupResponse))
    ensures
        res.0.name == req.name,
        res.1.id@ == "GroupID-"@ + fresh_id@,
{
    let id = String::from_str("GroupID-").concat(fresh_id);
    (NewGroup { name: req.name }, AddGroupResponse { id })
}

} // verus!
