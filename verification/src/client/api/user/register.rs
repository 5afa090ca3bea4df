//! Registering a user.

use vstd::prelude::*;

verus! {

pub const PATH: &'static str = "/v1/users/register";

#[derive(Debug, PartialEq, Eq)]
pub struct Request<'a> {
    pub name: &'a str,
    pub email: &'a str,
    pub password: &'a str,
}

#[derive(Debug, PartialEq, Eq)]
pub struct Response {
    pub id: String,
}

} // verus!
