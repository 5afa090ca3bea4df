//! Authentication and authorization of requests.

pub mod claims;
pub mod layer;
pub mod middleware;
pub mod permission;
