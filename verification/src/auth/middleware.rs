//! The guard that checks the bearer token and the required actions of a request.

use vstd::prelude::*;
use crate::auth::permission::CheckError;
use crate::status;
use crate::token::GetClaimsError;

verus! {

#[derive(Debug, PartialEq, Eq)]
/// Marks a request whose permissions were checked.
pub struct PermissionsChecked;

#[derive(Debug, PartialEq, Eq)]
/// The actions a route requires.
pub struct Permission {
    permissions: &'static [&'static str],
}

/// A service guarded by the actions it requires.
pub struct PermissionMiddleware<S> {
    permissions: &'static [&'static str],
    service: S,
}

impl Permission {
    pub fn new(permissions: &'static [&'static str]) -> (p: Self)
        ensures
            p.permissions() == permissions,
    {
        Self { permissions }
    }

    pub closed spec fn permissions(&self) -> &'static [&'static str] {
        self.permissions
    }

    /// Wraps `service` in a guard that requires the same actions.
    pub fn new_transform<S>(&self, service: S) -> (m: PermissionMiddleware<S>)
        ensures
            m.permissions() == self.permissions(),
            m.service() == service,
    {
        PermissionMiddleware { service, permissions: self.permissions }
    }
}

impl<S> PermissionMiddleware<S> {
    pub closed spec fn permissions(&self) -> &'static [&'static str] {
        self.permissions
    }

    pub closed spec fn service(&self) -> S {
        self.service
    }

    /// The actions this guard requires.
    pub fn required(&self) -> (r: &'static [&'static str])
        ensures
            r == self.permissions(),
    {
        self.permissions
    }

    /// The guarded service.
    pub fn inner(&self) -> (s: &S)
        ensures
            *s == self.service(),
    {
        &self.service
    }
}

#[derive(Debug, PartialEq, Eq)]
/// Why a request did not pass the guard.
pub enum ValidationError {
    GetClaimsError(GetClaimsError),
    CheckError(CheckError),
}

impl ValidationError {
    /// The status the guard answers with; any failed check, a refused action included,
    /// is answered as an internal error.
    pub fn status_code(&self) -> (c: u16)
        ensures
            c == match self {
                ValidationError::GetClaimsError(GetClaimsError::InvalidToken(_)) => status::UNAUTHORIZED,
                ValidationError::GetClaimsError(_) => status::BAD_REQUEST,
                ValidationError::CheckError(_) => status::INTERNAL_SERVER_ERROR,
            },
    {
        match self {
            ValidationError::GetClaimsError(GetClaimsError::InvalidToken(_)) => status::UNAUTHORIZED,
            ValidationError::GetClaimsError(GetClaimsError::NoAuthorizationHeader) => status::BAD_REQUEST,
            ValidationError::GetClaimsError(GetClaimsError::NotUTF8Header) => status::BAD_REQUEST,
            ValidationError::GetClaimsError(GetClaimsError::NotBearerToken) => status::BAD_REQUEST,
            ValidationError::CheckError(_) => status::INTERNAL_SERVER_ERROR,
        }
    }
}

} // verus!
