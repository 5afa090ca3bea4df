//! Asking whether an action exists (the first form of the route).

use vstd::prelude::*;
use crate::status;

verus! {

#[derive(Debug, PartialEq, Eq)]
pub struct GetActionRequest {
    pub action: String,
}

/// `200 OK` when an action of that name exists, else `404 Not Found`.
pub fn get_action(found: bool) -> (c: u16)
    ensures
        c == (if found { status::OK } else { status::NOT_FOUND }),
{
    if found { status::OK } else { status::NOT_FOUND }
}

} // verus!
