//! The HTTP status codes that the service answers with.

use vstd::prelude::*;

verus! {

pub const OK: u16 = 200;
pub const NO_CONTENT: u16 = 204;
pub const BAD_REQUEST: u16 = 400;
pub const UNAUTHORIZED: u16 = 401;
pub const FORBIDDEN: u16 = 403;
pub const NOT_FOUND: u16 = 404;
pub const REQUEST_TIMEOUT: u16 = 408;
pub const INTERNAL_SERVER_ERROR: u16 = 500;

} // verus!
