//! The well-known documents of the service.

use vstd::prelude::*;

verus! {

/// Where the service publishes its signing keys.
pub const JWKS_PATH: &'static str = "/.well-known/jwks.json";

} // verus!
