//! Logging a user in.

use vstd::prelude::*;

verus! {

pub const PATH: &'static str = "/v1/users/login";

#[derive(Debug, PartialEq, Eq)]
pub struct Request<'a> {
    pub email: &'a str,
    pub password: &'a str,
}

#[derive(Debug, PartialEq, Eq)]
pub struct Response {
    pub token: String,
}

} // verus!
