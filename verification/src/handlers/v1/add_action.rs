//! Adding an action (the first form of the route).

use vstd::prelude::*;
use crate::util::ActiveValue;

verus! {

#[derive(Debug, PartialEq, Eq)]
pub struct AddActionRequest {
    pub action: String,
    pub secure: bool,
}

#[derive(Debug, PartialEq, Eq)]
/// A new row of the `actions` table, with the flag stored as a number.
pub struct ActionRow {
    pub id: ActiveValue<String>,
    pub name: String,
    pub secure: i8,
}

/// The row to insert: the database picks the id, and the flag is 1 or 0.
pub fn add_action(req: AddActionRequest) -> (row: ActionRow)
    ensures
        row.id is NotSet,
        row.name == req.action,
        row.secure == (if req.secure { 1i8 } else { 0i8 }),
{
    ActionRow { id: ActiveValue::NotSet, name: req.action, secure: if req.secure { 1 } else { 0 } }
}

} // verus!
