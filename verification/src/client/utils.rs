//! Helpers of the client.

use vstd::prelude::*;

verus! {

#[derive(Debug, PartialEq, Eq)]
/// One of two values.
pub enum Either<L, R> {
    Left(L),
    Right(R),
}

/// The value of the `Authorization` header the client sends: `Bearer <token>`.
pub fn bearer_header_value(token: &str) -> (v: String)
    ensures
        v@ == "Bearer "@ + token@,
{
    String::from_str("Bearer ").concat(token)
}

} // verus!
