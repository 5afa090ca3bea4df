//! Checking a user's password (the first form of the login route).

use vstd::prelude::*;
use crate::entity::UserModel;
use crate::handlers::v1::users::login::PasswordCheck;
use crate::password::ValidateError;
use crate::status;
use crate::validate::{ValidationErrors, check_email, check_length, collect2, email_field_ok, no_address, failed_fields, length_ok, texts};

verus! {

#[derive(Debug, PartialEq, Eq)]
pub struct RegisterRequest {
    pub email: String,
    pub password: String,
}

#[derive(Debug)]
pub enum LoginError {
    NoUser,
    /// The text is the database's message.
    DatabaseError(String),
    BadInputData,
    ValidationError(ValidateError),
    WrongPassword,
}

impl LoginError {
    pub fn status_code(&self) -> (c: u16)
        ensures
            c == match self {
                LoginError::NoUser => status::UNAUTHORIZED,
                LoginError::DatabaseError(_) => status::INTERNAL_SERVER_ERROR,
                LoginError::BadInputData => status::BAD_REQUEST,
                LoginError::ValidationError(_) => status::INTERNAL_SERVER_ERROR,
                LoginError::WrongPassword => status::UNAUTHORIZED,
            },
    {
        match self {
            LoginError::NoUser => status::UNAUTHORIZED,
            LoginError::DatabaseError(_) => status::INTERNAL_SERVER_ERROR,
            LoginError::BadInputData => status::BAD_REQUEST,
            LoginError::ValidationError(_) => status::INTERNAL_SERVER_ERROR,
            LoginError::WrongPassword => status::UNAUTHORIZED,
        }
    }
}

impl RegisterRequest {
    /// The address must be an e-mail address and both fields at most 256 characters.
    pub fn validate(&self) -> (res: Result<(), ValidationErrors>)
        ensures
            res is Ok <==> email_field_ok(self.email@) && length_ok(self.password@),
            no_address(self.email@) ==> res is Err,
            res matches Err(e) ==> texts(e.fields@) == failed_fields(
                seq![("email"@, email_field_ok(self.email@)), ("password"@, length_ok(self.password@))],
            ),
    {
        let e = check_email(&self.email);
        let p = check_length(&self.password);
        collect2("email", e, "password", p)
    }
}

/// The first check: malformed input is refused with `BadInputData`.
pub fn login_input(req: &RegisterRequest) -> (res: Result<(), LoginError>)
    ensures
        res is Ok <==> email_field_ok(req.email@) && length_ok(req.password@),
        res matches Err(e) ==> e is BadInputData,
        no_address(req.email@) ==> res is Err,
{
    match req.validate() {
        Ok(()) => Ok(()),
        Err(_) => Err(LoginError::BadInputData),
    }
}

/// After the lookup by address: the user, or why the login ends.
pub fn login_found(lookup: Result<Option<UserModel>, String>) -> (res: Result<UserModel, LoginError>)
    ensures
        match lookup {
            Err(m) => res == Err::<UserModel, LoginError>(LoginError::DatabaseError(m)),
            Ok(None) => res == Err::<UserModel, LoginError>(LoginError::NoUser),
            Ok(Some(u)) => res == Ok::<UserModel, LoginError>(u),
        },
{
    match lookup {
        Err(m) => Err(LoginError::DatabaseError(m)),
        Ok(None) => Err(LoginError::NoUser),
        Ok(Some(u)) => Ok(u),
    }
}

/// After the password check: its error ends the login; else whether the password
/// matched and the new hash to store first, if any.
pub fn login_checked(check: Result<PasswordCheck, ValidateError>) -> (res: Result<(bool, Option<String>), LoginError>)
    ensures
        match check {
            Err(e) => res == Err::<(bool, Option<String>), LoginError>(LoginError::ValidationError(e)),
            Ok(c) => res == Ok::<(bool, Option<String>), LoginError>((c.valid, match c.rehash {
                Some(Ok(h)) => Some(h),
                _ => None,
            })),
        },
{
    match check {
        Err(e) => Err(LoginError::ValidationError(e)),
        Ok(c) => {
            let rehash = match c.rehash {
                Some(Ok(h)) => Some(h),
                _ => None,
            };
            Ok((c.valid, rehash))
        },
    }
}

/// The answer, once any new hash is stored: `200 OK` for the right password.
pub fn login_finish(valid: bool, stored: Result<(), String>) -> (res: Result<u16, LoginError>)
    ensures
        stored matches Err(m) ==> res == Err::<u16, LoginError>(LoginError::DatabaseError(m)),
        stored is Ok ==> (valid ==> res == Ok::<u16, LoginError>(status::OK))
            && (!valid ==> res == Err::<u16, LoginError>(LoginError::WrongPassword)),
{
    match stored {
        Err(m) => Err(LoginError::DatabaseError(m)),
        Ok(()) => if valid { Ok(status::OK) } else { Err(LoginError::WrongPassword) },
    }
}

} // verus!
