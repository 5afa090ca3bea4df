//! Logging an application in with its secret.

use vstd::prelude::*;

verus! {

pub const PATH: &'static str = "/v1/apps/login";

#[derive(Debug, PartialEq, Eq)]
pub struct Request<'a> {
    pub token: &'a str,
}

#[derive(Debug, PartialEq, Eq)]
pub struct Response {
    pub token: String,
}

} // verus!
