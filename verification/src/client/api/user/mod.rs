//! The requests about users.

pub mod login;
pub mod register;

use vstd::prelude::*;

verus! {

/// The address of a user's record.
pub fn get_user_path(id: &str) -> (p: String)
    ensures
        p@ == "/v1/users/"@ + id@,
{
    String::from_str("/v1/users/").concat(id)
}

} // verus!
