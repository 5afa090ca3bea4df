//! Inviting a user by e-mail.

use vstd::prelude::*;
use crate::status;
use crate::validate::{ValidationErrors, check_email, collect_failures, email_field_ok, no_address, lemma_failed_fields_push};

verus! {

#[derive(Debug, PartialEq, Eq)]
pub struct InviteRequest {
    pub email: String,
}

/// How long an invitation stays open: one day, in seconds.
pub const INVITE_TTL_SECONDS: u64 = 86400;

/// The number of characters of an invitation token.
pub const INVITE_TOKEN_LENGTH: usize = 32;

/// The address invitations are sent from.
pub const INVITE_SENDER: &'static str = "verseghy@test.verseghy.net";

/// The subject of an invitation.
pub const INVITE_SUBJECT: &'static str = "Meghívó";

/// ASCII letters and digits.
pub open spec fn is_alphanumeric_ascii(c: char) -> bool {
    ('0' <= c && c <= '9') || ('a' <= c && c <= 'z') || ('A' <= c && c <= 'Z')
}

/// Draws `len` characters with the `Alphanumeric` distribution of `rand` from the
/// thread-local generator. Claimed: the length, and that every character is an ASCII
/// letter or digit, as the distribution's documentation says; the characters are random.
#[verifier::external_body]
fn random_alphanumeric(len: usize) -> (s: String)
    ensures
        s@.len() == len,
        forall|i: int| 0 <= i < len ==> is_alphanumeric_ascii(#[trigger] s@[i]),
{
    rand::Rng::sample_iter(rand::thread_rng(), &rand::distributions::Alphanumeric)
        .take(len)
        .map(char::from)
        .collect()
}

#[derive(Debug, PartialEq, Eq)]
/// The e-mail that carries an invitation.
pub struct InviteMail {
    pub to: String,
    pub from: String,
    pub subject: String,
    pub body: String,
}

#[derive(Debug, PartialEq, Eq)]
/// What to store and send for a new invitation: the token under `key`, kept for
/// `ttl_seconds`, and the mail that tells it.
pub struct InvitePlan {
    pub key: String,
    pub token: String,
    pub ttl_seconds: u64,
    pub mail: InviteMail,
}

#[derive(Debug, PartialEq, Eq)]
pub enum InviteError {
    AlreadyExists,
    /// The text is the store's message.
    RedisError(String),
    /// The mail could not be built; the text says why.
    EmailError(String),
    /// The mail could not be sent; the text says why.
    SmtpError(String),
}

impl InviteError {
    pub open spec fn status_code_spec(&self) -> u16 {
        match self {
            InviteError::AlreadyExists => status::BAD_REQUEST,
            _ => status::INTERNAL_SERVER_ERROR,
        }
    }

    pub open spec fn message_spec(&self) -> Seq<char> {
        match self {
            InviteError::AlreadyExists => "user already invited"@,
            InviteError::RedisError(m) => "redis error "@ + m@,
            InviteError::EmailError(_) => "email error"@,
            InviteError::SmtpError(_) => "smtp error"@,
        }
    }

    /// The response to the error: its status and its text.
    pub fn into_response(self) -> (r: (u16, String))
        ensures
            r.0 == self.status_code_spec(),
            r.1@ == self.message_spec(),
    {
        match self {
            InviteError::AlreadyExists => (status::BAD_REQUEST, String::from_str("user already invited")),
            InviteError::RedisError(m) => (status::INTERNAL_SERVER_ERROR, String::from_str("redis error ").concat(m.as_str())),
            InviteError::EmailError(_) => (status::INTERNAL_SERVER_ERROR, String::from_str("email error")),
            InviteError::SmtpError(_) => (status::INTERNAL_SERVER_ERROR, String::from_str("smtp error")),
        }
    }
}

impl InviteRequest {
    /// The address must be an e-mail address of at most 256 characters.
    pub fn validate(&self) -> (res: Result<(), ValidationErrors>)
        ensures
            res is Ok <==> email_field_ok(self.email@),
            no_address(self.email@) ==> res is Err,
            res matches Err(e) ==> e.fields@.len() == 1 && e.fields@[0]@ == "email"@,
    {
        let ok = check_email(&self.email);
        let checks: Vec<(&'static str, bool)> = vec![("email", ok)];
        let res = collect_failures(&checks);
        proof {
            let e = Seq::<(Seq<char>, bool)>::empty();
            assert(checks@.map_values(|p: (&'static str, bool)| (p.0@, p.1)) =~= e.push(("email"@, ok)));
            lemma_failed_fields_push(e, ("email"@, ok));
            if res is Err {
                let f = res->Err_0.fields@;
                assert(f.map_values(|s: String| s@)[0] == f[0]@);
            }
        }
        res
    }

    /// The key the invitation of this address is stored under.
    pub fn key(&self) -> (k: String)
        ensures
            k@ == "/invites/"@ + self.email@,
    {
        String::from_str("/invites/").concat(self.email.as_str())
    }
}

/// What to do with an invitation, given whether the address is already invited: refuse
/// it, pass on a store error, or store a fresh token of 32 letters and digits for a day
/// and mail it to the address as `token: <token>`.
pub fn invite(req: &InviteRequest, already_invited: Result<bool, String>) -> (res: Result<InvitePlan, InviteError>)
    ensures
        match already_invited {
            Err(m) => res == Err::<InvitePlan, InviteError>(InviteError::RedisError(m)),
            Ok(true) => res == Err::<InvitePlan, InviteError>(InviteError::AlreadyExists),
            Ok(false) => res matches Ok(p) && {
                &&& p.key@ == "/invites/"@ + req.email@
                &&& p.token@.len() == INVITE_TOKEN_LENGTH
                &&& forall|i: int| 0 <= i < p.token@.len() ==> is_alphanumeric_ascii(#[trigger] p.token@[i])
                &&& p.ttl_seconds == INVITE_TTL_SECONDS
                &&& p.mail.to@ == req.email@
                &&& p.mail.from@ == INVITE_SENDER@
                &&& p.mail.subject@ == INVITE_SUBJECT@
                &&& p.mail.body@ == "token: "@ + p.token@
            },
        },
{
    match already_invited {
        Err(m) => Err(InviteError::RedisError(m)),
        Ok(true) => Err(InviteError::AlreadyExists),
        Ok(false) => {
            let key = req.key();
            let token = random_alphanumeric(INVITE_TOKEN_LENGTH);
            let body = String::from_str("token: ").concat(token.as_str());
            let mail = InviteMail {
                to: req.email.clone(),
                from: INVITE_SENDER.to_string(),
                subject: INVITE_SUBJECT.to_string(),
                body,
            };
            Ok(InvitePlan { key, token, ttl_seconds: INVITE_TTL_SECONDS, mail })
        },
    }
}

} // verus!
