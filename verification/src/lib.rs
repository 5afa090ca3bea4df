//! Identity and access management: password hashing, token claims,
//! permission checks and the decisions behind the HTTP handlers.

pub mod auth;
pub mod client;
pub mod database;
pub mod entity;
pub mod handlers;
pub mod migration;
pub mod password;
pub mod status;
pub mod token;
pub mod util;
pub mod validate;

use vstd::prelude::*;

verus! {

/// The answer to a request that failed inside the middleware: a timeout is
/// `408 Request took too long`, anything else `500` with an empty body.
pub fn handle_error(is_timeout: bool) -> (r: (u16, String))
    ensures
        is_timeout ==> r.0 == status::REQUEST_TIMEOUT && r.1@ == "Request took too long"@,
        !is_timeout ==> r.0 == status::INTERNAL_SERVER_ERROR && r.1@.len() == 0,
{
    if is_timeout {
        (status::REQUEST_TIMEOUT, String::from_str("Request took too long"))
    } else {
        (status::INTERNAL_SERVER_ERROR, String::new())
    }
}

} // verus!
