//! Registering a user.

use vstd::prelude::*;
use vstd::utf8::encode_utf8;
use crate::entity::{DbError, NewUser};
use crate::password::{self, HashType, validate_outcome};
use crate::status;
use crate::validate::{ValidationErrors, check_email, check_length, collect3, email_field_ok, no_address, failed_fields, length_ok, texts};

verus! {

#[derive(Debug, PartialEq, Eq)]
pub struct RegisterRequest {
    pub email: String,
    pub name: String,
    pub password: String,
}

impl RegisterRequest {
    /// The address must be an e-mail address and every field at most 256 characters.
    pub open spec fn valid(&self) -> bool {
        email_field_ok(self.email@) && length_ok(self.name@) && length_ok(self.password@)
    }

    pub fn validate(&self) -> (res: Result<(), ValidationErrors>)
        ensures
            res is Ok <==> self.valid(),
            no_address(self.email@) ==> res is Err,
            res matches Err(e) ==> texts(e.fields@) == failed_fields(seq![
                ("email"@, email_field_ok(self.email@)),
                ("name"@, length_ok(self.name@)),
                ("password"@, length_ok(self.password@)),
            ]),
    {
        let e = check_email(&self.email);
        let n = check_length(&self.name);
        let p = check_length(&self.password);
        collect3("email", e, "name", n, "password", p)
    }
}

/// The user row to insert, with the password hashed; or the answer when the request is
/// malformed (`400`) or the password cannot be hashed (`500`), both with an empty body.
pub fn register(req: RegisterRequest) -> (res: Result<NewUser, (u16, String)>)
    ensures
        !req.valid() ==> (res matches Err(r) && r.0 == status::BAD_REQUEST && r.1@.len() == 0),
        no_address(req.email@) ==> (res matches Err(r) && r.0 == status::BAD_REQUEST),
        req.valid() ==> match res {
            Ok(u) => u.email == req.email && u.name == req.name
                && validate_outcome(HashType::Argon2, u.password@, encode_utf8(req.password@)) == Some(true),
            Err(r) => r.0 == status::INTERNAL_SERVER_ERROR && r.1@.len() == 0,
        },
        // Within the 256-character limit a password always hashes.
        req.valid() ==> res is Ok,
{
    if req.validate().is_err() {
        return Err((status::BAD_REQUEST, String::new()));
    }
    proof {
        assert(encode_utf8(req.password@).len() <= 4 * req.password@.len()) by {
            password::lemma_encode_utf8_len_bound(req.password@);
        }
    }
    match password::encrypt(req.password.as_str()) {
        Ok(hash) => Ok(NewUser { email: req.email, name: req.name, password: hash }),
        Err(_) => Err((status::INTERNAL_SERVER_ERROR, String::new())),
    }
}

/// The answer to the insert: an existing address is refused with
/// `400 Email already exists`, another failure is `500`, success `200`.
pub fn register_inserted(inserted: Result<(), DbError>) -> (r: (u16, String))
    ensures
        match inserted {
            Ok(()) => r.0 == status::OK && r.1@.len() == 0,
            Err(DbError::Exec(_)) => r.0 == status::BAD_REQUEST && r.1@ == "Email already exists"@,
            Err(DbError::Other(_)) => r.0 == status::INTERNAL_SERVER_ERROR && r.1@.len() == 0,
        },
{
    match inserted {
        Ok(()) => (status::OK, String::new()),
        Err(DbError::Exec(_)) => (status::BAD_REQUEST, String::from_str("Email already exists")),
        Err(DbError::Other(_)) => (status::INTERNAL_SERVER_ERROR, String::new()),
    }
}

} // verus!
