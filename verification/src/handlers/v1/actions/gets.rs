//! Listing the actions.

use vstd::prelude::*;
use crate::entity::ActionModel;
use crate::status;

verus! {

#[derive(Debug, PartialEq, Eq)]
/// An action as listed.
pub struct Action {
    pub id: String,
    pub name: String,
    pub secure: bool,
}

#[derive(Debug, PartialEq, Eq)]
pub struct GetsResponse {
    pub actions: Vec<Action>,
}

#[derive(Debug, PartialEq, Eq)]
pub enum GetsError {
    /// The text is the database's message.
    DatabaseError(String),
}

impl GetsError {
    /// The status of the error.
    pub fn status_code(&self) -> (c: u16)
        ensures
            c == status::INTERNAL_SERVER_ERROR,
    {
        match self {
            GetsError::DatabaseError(_) => status::INTERNAL_SERVER_ERROR,
        }
    }
}

/// Every action read, in order.
pub fn gets(rows: Result<Vec<ActionModel>, String>) -> (res: Result<GetsResponse, GetsError>)
    ensures
        rows matches Err(m) ==> res == Err::<GetsResponse, GetsError>(GetsError::DatabaseError(m)),
        rows matches Ok(r) ==> res matches Ok(g) && g.actions@.len() == r@.len()
            && forall|i: int| 0 <= i < r@.len() ==> {
                &&& (#[trigger] g.actions@[i]).id == r@[i].id
                &&& g.actions@[i].name == r@[i].name
                &&& g.actions@[i].secure == r@[i].secure
            },
{
    let rows = match rows {
        Err(m) => return Err(GetsError::DatabaseError(m)),
        Ok(r) => r,
    };
    let mut actions: Vec<Action> = Vec::new();
    let n = rows.len();
    let mut i: usize = 0;
    while i < n
        invariant
            n == rows@.len(),
            i <= n,
            actions@.len() == i,
            forall|j: int| 0 <= j < i ==> {
                &&& (#[trigger] actions@[j]).id == rows@[j].id
                &&& actions@[j].name == rows@[j].name
                &&& actions@[j].secure == rows@[j].secure
            },
        decreases n - i,
    {
        let r = &rows[i];
        actions.push(Action { id: r.id.clone(), name: r.name.clone(), secure: r.secure });
        i = i + 1;
    }
    Ok(GetsResponse { actions })
}

} // verus!
