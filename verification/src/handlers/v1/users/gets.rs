//! Listing the users.

use vstd::prelude::*;
use crate::entity::UserModel;
use crate::status;

verus! {

#[derive(Debug, PartialEq, Eq)]
/// The public fields of a user.
pub struct User {
    pub id: String,
    pub name: String,
    pub email: String,
}

#[derive(Debug, PartialEq, Eq)]
pub enum GetsError {
    /// The text is the database's message.
    DatabaseError(String),
}

impl GetsError {
    /// The response to the error: its status and its text.
    pub fn into_response(self) -> (r: (u16, String))
        ensures
            r.0 == status::INTERNAL_SERVER_ERROR,
            r.1@ == "database error"@,
    {
        match self {
            GetsError::DatabaseError(_) => (status::INTERNAL_SERVER_ERROR, String::from_str("database error")),
        }
    }
}

/// The public fields of each user, in the order read.
pub fn list_users(rows: Vec<UserModel>) -> (res: Vec<User>)
    ensures
        res@.len() == rows@.len(),
        forall|i: int| 0 <= i < rows@.len() ==> {
            &&& (#[trigger] res@[i]).id == rows@[i].id
            &&& res@[i].name == rows@[i].name
            &&& res@[i].email == rows@[i].email
        },
{
    let mut res: Vec<User> = Vec::new();
    let n = rows.len();
    let mut i: usize = 0;
    while i < n
        invariant
            n == rows@.len(),
            i <= n,
            res@.len() == i,
            forall|j: int| 0 <= j < i ==> {
                &&& (#[trigger] res@[j]).id == rows@[j].id
                &&& res@[j].name == rows@[j].name
                &&& res@[j].email == rows@[j].email
            },
        decreases n - i,
    {
        let r = &rows[i];
        res.push(User { id: r.id.clone(), name: r.name.clone(), email: r.email.clone() });
        i = i + 1;
    }
    res
}

} // verus!
