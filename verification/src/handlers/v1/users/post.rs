//! Writing the fields of a user.

use vstd::prelude::*;
use vstd::utf8::encode_utf8;
use crate::entity::UserUpdate;
use crate::password::{self, HashType, validate_outcome};
use crate::status;
use crate::util::{ActiveValue, option_value, set_option};

verus! {

#[derive(Debug, PartialEq, Eq)]
pub struct UpdateUserRequest {
    pub id: String,
    pub name: Option<String>,
    pub email: Option<String>,
    pub password: Option<String>,
}

#[derive(Debug, PartialEq)]
pub enum PostError {
    /// The text is the database's message.
    DatabaseError(String),
    HashError(argon2::Error),
}

impl PostError {
    pub open spec fn message_spec(&self) -> Seq<char> {
        match self {
            PostError::DatabaseError(_) => "database error"@,
            PostError::HashError(_) => "unknown error"@,
        }
    }

    /// The response to the error: its status and its text.
    pub fn into_response(self) -> (r: (u16, String))
        ensures
            r.0 == status::INTERNAL_SERVER_ERROR,
            r.1@ == self.message_spec(),
    {
        match self {
            PostError::DatabaseError(_) => (status::INTERNAL_SERVER_ERROR, String::from_str("database error")),
            PostError::HashError(_) => (status::INTERNAL_SERVER_ERROR, String::from_str("unknown error")),
        }
    }
}

/// The columns to write for an update of a user: the id, and each given field; a new
/// password is stored as its Argon2 hash. Hashing fails only for a password longer than
/// `u32::MAX` bytes.
pub fn update_user(req: UpdateUserRequest) -> (res: Result<UserUpdate, PostError>)
    ensures
        res is Err <==> (req.password matches Some(p) && encode_utf8(p@).len() > 0xFFFF_FFFF),
        res matches Err(e) ==> e is HashError,
        res matches Ok(u) ==> {
            &&& u.id == ActiveValue::Value(req.id)
            &&& u.name == option_value(req.name)
            &&& u.email == option_value(req.email)
            &&& match req.password {
                None => u.password is NotSet,
                Some(p) => u.password matches ActiveValue::Value(h)
                    && validate_outcome(HashType::Argon2, h@, encode_utf8(p@)) == Some(true),
            }
        },
{
    let hash = match req.password {
        Some(pwd) => match password::encrypt(pwd.as_str()) {
            Ok(h) => Some(h),
            Err(e) => return Err(PostError::HashError(e)),
        },
        None => None,
    };
    Ok(UserUpdate {
        id: ActiveValue::Value(req.id),
        name: set_option(req.name),
        email: set_option(req.email),
        password: set_option(hash),
    })
}

} // verus!
