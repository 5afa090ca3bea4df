//! The guard of the routes: it needs the claims of the request and the required actions.

use vstd::prelude::*;
use crate::auth::permission::CheckError;
use crate::status;
use crate::token::Claims;

verus! {

#[derive(Debug, PartialEq, Eq)]
/// Why a request did not pass the guard.
pub enum ValidationError {
    GetClaimsError,
    CheckError(CheckError),
}

impl ValidationError {
    /// The status the guard answers with.
    pub open spec fn status_code_spec(&self) -> u16 {
        match self {
            ValidationError::GetClaimsError => status::UNAUTHORIZED,
            ValidationError::CheckError(CheckError::DatabaseError(_)) => status::INTERNAL_SERVER_ERROR,
            ValidationError::CheckError(CheckError::NoPermission(_)) => status::FORBIDDEN,
        }
    }

    /// The text of the error.
    pub open spec fn message_spec(&self) -> Seq<char> {
        match self {
            ValidationError::GetClaimsError => "get claims error"@,
            ValidationError::CheckError(e) => "check error: "@ + e.message_spec(),
        }
    }

    pub fn status_code(&self) -> (c: u16)
        ensures
            c == self.status_code_spec(),
    {
        match self {
            ValidationError::GetClaimsError => status::UNAUTHORIZED,
            ValidationError::CheckError(CheckError::DatabaseError(_)) => status::INTERNAL_SERVER_ERROR,
            ValidationError::CheckError(CheckError::NoPermission(_)) => status::FORBIDDEN,
        }
    }

    pub fn message(&self) -> (s: String)
        ensures
            s@ == self.message_spec(),
    {
        match self {
            ValidationError::GetClaimsError => String::from_str("get claims error"),
            ValidationError::CheckError(e) => {
                let inner = e.message();
                String::from_str("check error: ").concat(inner.as_str())
            },
        }
    }

    /// The response of the guard: its status and its text.
    pub fn into_response(self) -> (r: (u16, String))
        ensures
            r.0 == self.status_code_spec(),
            r.1@ == self.message_spec(),
    {
        let c = self.status_code();
        let m = self.message();
        (c, m)
    }
}

/// The user a request acts for: the subject of its claims. Without claims the guard
/// refuses the request.
pub fn claims_subject(claims: Option<&Claims>) -> (res: Result<String, ValidationError>)
    ensures
        match claims {
            Some(c) => res == Ok::<String, ValidationError>(c.subject),
            None => res == Err::<String, ValidationError>(ValidationError::GetClaimsError),
        },
{
    match claims {
        Some(c) => Ok(c.subject.clone()),
        None => Err(ValidationError::GetClaimsError),
    }
}

/// The guard's verdict from the permission check of the subject.
pub fn validate(check: Result<(), CheckError>) -> (res: Result<(), ValidationError>)
    ensures
        match check {
            Ok(()) => res is Ok,
            Err(e) => res == Err::<(), ValidationError>(ValidationError::CheckError(e)),
        },
{
    match check {
        Ok(()) => Ok(()),
        Err(e) => Err(ValidationError::CheckError(e)),
    }
}

} // verus!
