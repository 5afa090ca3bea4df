//! Logging a user in: the steps between the request and the token.
//!
//! The caller runs the steps: it performs what each step asks (a lookup, a password
//! check, a write, the encoding of the claims) and hands the outcome to the next one,
//! until a step finishes the request.

use vstd::prelude::*;
use crate::entity::UserModel;
use crate::password::ValidateError;
use crate::status;
use crate::token::{Claims, TOKEN_AUDIENCE, TOKEN_LIFETIME_SECONDS, is_clock_reading};
use crate::validate::{ValidationErrors, check_email, check_length, collect2, email_field_ok, no_address, failed_fields, length_ok, texts};

verus! {

#[derive(Debug, PartialEq, Eq)]
pub struct LoginRequest {
    pub email: String,
    pub password: String,
}

#[derive(Debug, PartialEq, Eq)]
pub struct LoginResponse {
    pub token: String,
}

#[derive(Debug)]
pub enum LoginError {
    NoUser,
    /// The text is the database's message.
    DatabaseError(String),
    BadInputData,
    ValidationError(ValidateError),
    WrongPassword,
    /// The text is the encoder's message.
    TokenError(String),
}

impl LoginError {
    pub open spec fn status_code_spec(&self) -> u16 {
        match self {
            LoginError::NoUser => status::UNAUTHORIZED,
            LoginError::DatabaseError(_) => status::INTERNAL_SERVER_ERROR,
            LoginError::BadInputData => status::BAD_REQUEST,
            LoginError::ValidationError(_) => status::INTERNAL_SERVER_ERROR,
            LoginError::WrongPassword => status::UNAUTHORIZED,
            LoginError::TokenError(_) => status::INTERNAL_SERVER_ERROR,
        }
    }

    pub open spec fn message_spec(&self) -> Seq<char> {
        match self {
            LoginError::NoUser => "no user with this email"@,
            LoginError::DatabaseError(_) => "database error"@,
            LoginError::BadInputData => "failed to validate input data"@,
            LoginError::ValidationError(_) => "failed to validate password"@,
            LoginError::WrongPassword => "wrong password"@,
            LoginError::TokenError(_) => "failed to generate JWT token"@,
        }
    }

    pub fn status_code(&self) -> (c: u16)
        ensures
            c == self.status_code_spec(),
    {
        match self {
            LoginError::NoUser => status::UNAUTHORIZED,
            LoginError::DatabaseError(_) => status::INTERNAL_SERVER_ERROR,
            LoginError::BadInputData => status::BAD_REQUEST,
            LoginError::ValidationError(_) => status::INTERNAL_SERVER_ERROR,
            LoginError::WrongPassword => status::UNAUTHORIZED,
            LoginError::TokenError(_) => status::INTERNAL_SERVER_ERROR,
        }
    }

    pub fn message(&self) -> (s: String)
        ensures
            s@ == self.message_spec(),
    {
        match self {
            LoginError::NoUser => String::from_str("no user with this email"),
            LoginError::DatabaseError(_) => String::from_str("database error"),
            LoginError::BadInputData => String::from_str("failed to validate input data"),
            LoginError::ValidationError(_) => String::from_str("failed to validate password"),
            LoginError::WrongPassword => String::from_str("wrong password"),
            LoginError::TokenError(_) => String::from_str("failed to generate JWT token"),
        }
    }
}

impl LoginRequest {
    /// The address must be an e-mail address and both fields at most 256 characters.
    pub fn validate(&self) -> (res: Result<(), ValidationErrors>)
        ensures
            res is Ok <==> email_field_ok(self.email@) && length_ok(self.password@),
            no_address(self.email@) ==> res is Err,
            res matches Err(e) ==> texts(e.fields@) == failed_fields(
                seq![("email"@, email_field_ok(self.email@)), ("password"@, length_ok(self.password@))],
            ),
    {
        let e = check_email(&self.email);
        let p = check_length(&self.password);
        collect2("email", e, "password", p)
    }
}

#[derive(Debug, PartialEq, Eq)]
/// The outcome of checking a password against a stored hash: whether it matched, and
/// a new hash to store when the stored one is to be replaced.
pub struct PasswordCheck {
    pub valid: bool,
    pub rehash: Option<Result<String, String>>,
}

#[derive(Debug)]
/// What the caller does next.
pub enum LoginStep {
    /// Look up the user with this e-mail address, then continue with [`login_found`].
    FindUser { email: String, password: String },
    /// Check the password against the user's stored hash, then continue with [`login_checked`].
    CheckPassword { user: UserModel, password: String },
    /// Store the new hash of the user's password, then continue with [`login_stored`].
    StorePassword { user: UserModel, hash: String, valid: bool },
    /// Encode these claims into a token, then continue with [`login_encoded`].
    IssueToken { claims: Claims },
    /// Answer the request.
    Finish(Result<LoginResponse, LoginError>),
}

/// The step issues a token for `subject`, issued by `issuer` now for the audience of the
/// service and valid for a week.
pub open spec fn issues_token_for(step: LoginStep, subject: String, issuer: String) -> bool {
    match step {
        LoginStep::IssueToken { claims } => {
            &&& claims.subject == subject
            &&& claims.issuer == issuer
            &&& claims.audience@.len() == 1
            &&& claims.audience@[0]@ == TOKEN_AUDIENCE@
            &&& claims.not_before == claims.issued_at
            &&& claims.expires_at == claims.issued_at + TOKEN_LIFETIME_SECONDS
            &&& is_clock_reading(claims.issued_at)
        },
        _ => false,
    }
}

/// The first step: malformed input is refused, else the user is looked up by address.
pub fn login_start(req: LoginRequest) -> (step: LoginStep)
    ensures
        (email_field_ok(req.email@) && length_ok(req.password@)) ==>
            step == (LoginStep::FindUser { email: req.email, password: req.password }),
        !(email_field_ok(req.email@) && length_ok(req.password@)) ==>
            step == LoginStep::Finish(Err(LoginError::BadInputData)),
        no_address(req.email@) ==> step == LoginStep::Finish(Err(LoginError::BadInputData)),
{
    match req.validate() {
        Ok(()) => LoginStep::FindUser { email: req.email, password: req.password },
        Err(_) => LoginStep::Finish(Err(LoginError::BadInputData)),
    }
}

/// After the lookup: an unknown address or a database error ends the request, else the
/// password is checked.
pub fn login_found(lookup: Result<Option<UserModel>, String>, password: String) -> (step: LoginStep)
    ensures
        match lookup {
            Err(m) => step == LoginStep::Finish(Err(LoginError::DatabaseError(m))),
            Ok(None) => step == LoginStep::Finish(Err(LoginError::NoUser)),
            Ok(Some(u)) => step == (LoginStep::CheckPassword { user: u, password }),
        },
{
    match lookup {
        Err(m) => LoginStep::Finish(Err(LoginError::DatabaseError(m))),
        Ok(None) => LoginStep::Finish(Err(LoginError::NoUser)),
        Ok(Some(u)) => LoginStep::CheckPassword { user: u, password },
    }
}

/// The claims of a token for `subject`: issued now by `issuer` for the audience of the
/// service, valid for a week.
pub fn token_claims(subject: String, issuer: String) -> (c: Claims)
    ensures
        c.subject == subject,
        c.issuer == issuer,
        c.audience@.len() == 1,
        c.audience@[0]@ == TOKEN_AUDIENCE@,
        c.not_before == c.issued_at,
        c.expires_at == c.issued_at + TOKEN_LIFETIME_SECONDS,
        is_clock_reading(c.issued_at),
{
    let mut c = Claims::new_now(issuer);
    c.subject = subject;
    c
}

/// Once the password is known to match or not: a wrong password ends the request, a
/// right one gets a token for the user.
pub fn login_verdict(user: UserModel, valid: bool, issuer: String) -> (step: LoginStep)
    ensures
        !valid ==> step == LoginStep::Finish(Err(LoginError::WrongPassword)),
        valid ==> issues_token_for(step, user.id, issuer),
{
    if !valid {
        LoginStep::Finish(Err(LoginError::WrongPassword))
    } else {
        LoginStep::IssueToken { claims: token_claims(user.id, issuer) }
    }
}

/// After the password check: an error of the check ends the request; a new hash is
/// stored first; then the verdict.
pub fn login_checked(user: UserModel, check: Result<PasswordCheck, ValidateError>, issuer: String) -> (step: LoginStep)
    ensures
        check matches Err(e) ==> step == LoginStep::Finish(Err(LoginError::ValidationError(e))),
        check matches Ok(c) ==> match c.rehash {
            Some(Ok(h)) => step == (LoginStep::StorePassword { user, hash: h, valid: c.valid }),
            _ => (!c.valid ==> step == LoginStep::Finish(Err(LoginError::WrongPassword)))
                && (c.valid ==> issues_token_for(step, user.id, issuer)),
        },
{
    match check {
        Err(e) => LoginStep::Finish(Err(LoginError::ValidationError(e))),
        Ok(c) => match c.rehash {
            Some(Ok(h)) => LoginStep::StorePassword { user, hash: h, valid: c.valid },
            _ => login_verdict(user, c.valid, issuer),
        },
    }
}

/// After storing the new hash: a database error ends the request, else the verdict.
pub fn login_stored(user: UserModel, valid: bool, stored: Result<(), String>, issuer: String) -> (step: LoginStep)
    ensures
        stored matches Err(m) ==> step == LoginStep::Finish(Err(LoginError::DatabaseError(m))),
        stored is Ok ==> (!valid ==> step == LoginStep::Finish(Err(LoginError::WrongPassword)))
            && (valid ==> issues_token_for(step, user.id, issuer)),
{
    match stored {
        Err(m) => LoginStep::Finish(Err(LoginError::DatabaseError(m))),
        Ok(()) => login_verdict(user, valid, issuer),
    }
}

/// After encoding: the token is the answer, or the encoder's error ends the request.
pub fn login_encoded(token: Result<String, String>) -> (step: LoginStep)
    ensures
        match token {
            Ok(t) => step == LoginStep::Finish(Ok(LoginResponse { token: t })),
            Err(m) => step == LoginStep::Finish(Err(LoginError::TokenError(m))),
        },
{
    match token {
        Ok(t) => LoginStep::Finish(Ok(LoginResponse { token: t })),
        Err(m) => LoginStep::Finish(Err(LoginError::TokenError(m))),
    }
}

} // verus!
