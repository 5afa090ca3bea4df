//! Checking that a user holds the actions a route requires.

use vstd::prelude::*;
use crate::status;
use crate::token::GetClaimsError;

verus! {

#[derive(Debug, PartialEq, Eq)]
/// Marks a request whose permissions were checked.
pub struct PermissionsChecked;

#[derive(Debug, PartialEq, Eq)]
/// The actions a route requires.
pub struct Permission {
    permissions: &'static [&'static str],
}

/// A service guarded by the actions it requires.
pub struct PermissionMiddleware<S> {
    permissions: &'static [&'static str],
    service: S,
}

impl Permission {
    pub fn new(permissions: &'static [&'static str]) -> (p: Self)
        ensures
            p.permissions() == permissions,
    {
        Self { permissions }
    }

    pub closed spec fn permissions(&self) -> &'static [&'static str] {
        self.permissions
    }

    /// The actions this guard requires.
    pub fn required(&self) -> (r: &'static [&'static str])
        ensures
            r == self.permissions(),
    {
        self.permissions
    }

    /// Wraps `service` in a guard that requires the same actions.
    pub fn new_transform<S>(&self, service: S) -> (m: PermissionMiddleware<S>)
        ensures
            m.permissions() == self.permissions(),
            m.service() == service,
    {
        PermissionMiddleware { service, permissions: self.permissions }
    }
}

impl<S> PermissionMiddleware<S> {
    pub closed spec fn permissions(&self) -> &'static [&'static str] {
        self.permissions
    }

    pub closed spec fn service(&self) -> S {
        self.service
    }

    /// The actions this guard requires.
    pub fn required(&self) -> (r: &'static [&'static str])
        ensures
            r == self.permissions(),
    {
        self.permissions
    }

    /// The guarded service.
    pub fn inner(&self) -> (s: &S)
        ensures
            *s == self.service(),
    {
        &self.service
    }
}

#[derive(Debug, PartialEq, Eq)]
/// Why a permission check did not let a request through.
pub enum CheckError {
    /// The actions of the user could not be read; the text is the database's message.
    DatabaseError(String),
    /// The user does not hold this required action.
    NoPermission(String),
}

impl CheckError {
    /// The text of the error.
    pub open spec fn message_spec(&self) -> Seq<char> {
        match self {
            CheckError::DatabaseError(m) => "database error "@ + m@,
            CheckError::NoPermission(_) => "no permission"@,
        }
    }

    pub fn message(&self) -> (s: String)
        ensures
            s@ == self.message_spec(),
    {
        match self {
            CheckError::DatabaseError(m) => String::from_str("database error ").concat(m.as_str()),
            CheckError::NoPermission(_) => String::from_str("no permission"),
        }
    }
}

/// The texts of a list of strings.
pub open spec fn names(v: Seq<String>) -> Seq<Seq<char>> {
    v.map_values(|s: String| s@)
}

/// Every required action is held.
pub open spec fn allowed(held: Seq<Seq<char>>, required: Seq<Seq<char>>) -> bool {
    forall|i: int| 0 <= i < required.len() ==> held.contains(#[trigger] required[i])
}

/// `required[i]` is the first required action that is not held.
pub open spec fn first_missing(held: Seq<Seq<char>>, required: Seq<Seq<char>>, i: int) -> bool {
    &&& 0 <= i < required.len()
    &&& !held.contains(required[i])
    &&& forall|j: int| 0 <= j < i ==> held.contains(#[trigger] required[j])
}

/// Whether `action` is among the `held` actions.
fn holds_action(held: &Vec<String>, action: &String) -> (b: bool)
    ensures
        b == names(held@).contains(action@),
{
    let n = held.len();
    let mut j: usize = 0;
    while j < n
        invariant
            n == held@.len(),
            j <= n,
            forall|k: int| 0 <= k < j ==> held@[k]@ != action@,
        decreases n - j,
    {
        if held[j] == *action {
            assert(names(held@)[j as int] == action@);
            return true;
        }
        j = j + 1;
    }
    assert forall|k: int| 0 <= k < names(held@).len() implies names(held@)[k] != action@ by {
        assert(names(held@)[k] == held@[k]@);
    }
    false
}

/// Lets a user holding the `held` actions through a route that requires `required`:
/// `Ok` when every required action is held, else `NoPermission` with the first required
/// action, in order, that is not held.
pub fn check_actions(held: &Vec<String>, required: &Vec<String>) -> (res: Result<(), CheckError>)
    ensures
        res is Ok <==> allowed(names(held@), names(required@)),
        res matches Err(e) ==> exists|i: int|
            #[trigger] first_missing(names(held@), names(required@), i)
                && e == CheckError::NoPermission(required@[i]),
{
    let n = required.len();
    let mut i: usize = 0;
    while i < n
        invariant
            n == required@.len(),
            i <= n,
            forall|k: int| 0 <= k < i ==> names(held@).contains(#[trigger] names(required@)[k]),
        decreases n - i,
    {
        if !holds_action(held, &required[i]) {
            let missing = required[i].clone();
            assert(first_missing(names(held@), names(required@), i as int));
            return Err(CheckError::NoPermission(missing));
        }
        i = i + 1;
    }
    Ok(())
}

/// The permission check of a request, given what reading the user's actions gave:
/// a database error is passed on, else the actions are checked with [`check_actions`].
pub fn check(held: Result<Vec<String>, String>, required: &Vec<String>) -> (res: Result<(), CheckError>)
    ensures
        held matches Err(m) ==> res == Err::<(), CheckError>(CheckError::DatabaseError(m)),
        held matches Ok(h) ==> (res is Ok <==> allowed(names(h@), names(required@))),
        held matches Ok(h) ==> (res matches Err(e) ==> exists|i: int|
            #[trigger] first_missing(names(h@), names(required@), i)
                && e == CheckError::NoPermission(required@[i])),
{
    match held {
        Err(m) => Err(CheckError::DatabaseError(m)),
        Ok(h) => check_actions(&h, required),
    }
}

/// Holding more actions never takes a permission away.
pub proof fn lemma_allowed_monotone(held: Seq<Seq<char>>, more: Seq<Seq<char>>, required: Seq<Seq<char>>)
    requires
        allowed(held, required),
        forall|a: Seq<char>| held.contains(a) ==> more.contains(a),
    ensures
        allowed(more, required),
{
    assert forall|i: int| 0 <= i < required.len() implies more.contains(#[trigger] required[i]) by {
        assert(held.contains(required[i]));
    }
}

/// Requiring two lists of actions is requiring each of them.
pub proof fn lemma_allowed_concat(held: Seq<Seq<char>>, r1: Seq<Seq<char>>, r2: Seq<Seq<char>>)
    ensures
        allowed(held, r1 + r2) <==> (allowed(held, r1) && allowed(held, r2)),
{
    let r = r1 + r2;
    if allowed(held, r) {
        assert forall|i: int| 0 <= i < r1.len() implies held.contains(#[trigger] r1[i]) by {
            assert(r[i] == r1[i]);
        }
        assert forall|i: int| 0 <= i < r2.len() implies held.contains(#[trigger] r2[i]) by {
            assert(r[i + r1.len()] == r2[i]);
        }
    }
    if allowed(held, r1) && allowed(held, r2) {
        assert forall|i: int| 0 <= i < r.len() implies held.contains(#[trigger] r[i]) by {
            if i < r1.len() {
                assert(r[i] == r1[i]);
            } else {
                assert(r[i] == r2[i - r1.len()]);
            }
        }
    }
}

/// A route that requires nothing lets everyone through.
pub proof fn lemma_nothing_required(held: Seq<Seq<char>>)
    ensures
        allowed(held, Seq::empty()),
{
}

/// The first missing action is unique.
pub proof fn lemma_first_missing_unique(held: Seq<Seq<char>>, required: Seq<Seq<char>>, i: int, j: int)
    requires
        first_missing(held, required, i),
        first_missing(held, required, j),
    ensures
        i == j,
{
    if i < j {
        assert(held.contains(required[i]));
    }
    if j < i {
        assert(held.contains(required[j]));
    }
}

/// Some required action is missing exactly when the check refuses.
pub proof fn lemma_refused_has_first_missing(held: Seq<Seq<char>>, required: Seq<Seq<char>>)
    requires
        !allowed(held, required),
    ensures
        exists|i: int| first_missing(held, required, i),
    decreases required.len(),
{
    let last = required.len() - 1;
    let init = required.drop_last();
    if allowed(held, init) {
        if held.contains(required[last]) {
            // then every required action would be held
            assert forall|k: int| 0 <= k < required.len() implies held.contains(#[trigger] required[k]) by {
                if k < last {
                    assert(init[k] == required[k]);
                }
            }
        }
        assert forall|j: int| 0 <= j < last implies held.contains(#[trigger] required[j]) by {
            assert(init[j] == required[j]);
        }
        assert(first_missing(held, required, last));
    } else {
        lemma_refused_has_first_missing(held, init);
        let i = choose|i: int| first_missing(held, init, i);
        assert forall|j: int| 0 <= j < i implies held.contains(#[trigger] required[j]) by {
            assert(init[j] == required[j]);
        }
        assert(init[i] == required[i]);
        assert(first_missing(held, required, i));
    }
}

#[derive(Debug, PartialEq, Eq)]
/// Why a request did not pass the guard.
pub enum ValidationError {
    /// The token was refused by the decoder; the text is the decoder's message.
    InvalidToken(String),
    NoAuthorizationHeader,
    NotUTF8Header,
    NotBearerToken,
    /// The actions of the user could not be read; the text is the database's message.
    DatabaseError(String),
    NoPermission,
}

impl ValidationError {
    /// The status the guard answers with.
    pub fn status_code(&self) -> (c: u16)
        ensures
            c == match self {
                ValidationError::InvalidToken(_) => status::UNAUTHORIZED,
                ValidationError::NoAuthorizationHeader => status::BAD_REQUEST,
                ValidationError::NotUTF8Header => status::BAD_REQUEST,
                ValidationError::NotBearerToken => status::BAD_REQUEST,
                ValidationError::DatabaseError(_) => status::INTERNAL_SERVER_ERROR,
                ValidationError::NoPermission => status::FORBIDDEN,
            },
    {
        match self {
            ValidationError::InvalidToken(_) => status::UNAUTHORIZED,
            ValidationError::NoAuthorizationHeader => status::BAD_REQUEST,
            ValidationError::NotUTF8Header => status::BAD_REQUEST,
            ValidationError::NotBearerToken => status::BAD_REQUEST,
            ValidationError::DatabaseError(_) => status::INTERNAL_SERVER_ERROR,
            ValidationError::NoPermission => status::FORBIDDEN,
        }
    }

    /// The text of the error.
    pub fn message(&self) -> (s: String)
        ensures
            s@ == match self {
                ValidationError::InvalidToken(_) => "invalid token"@,
                ValidationError::NoAuthorizationHeader => "no authorization header"@,
                ValidationError::NotUTF8Header => "not a utf-8 header"@,
                ValidationError::NotBearerToken => "not Bearer token"@,
                ValidationError::DatabaseError(m) => "database error "@ + m@,
                ValidationError::NoPermission => "no permission"@,
            },
    {
        match self {
            ValidationError::InvalidToken(_) => String::from_str("invalid token"),
            ValidationError::NoAuthorizationHeader => String::from_str("no authorization header"),
            ValidationError::NotUTF8Header => String::from_str("not a utf-8 header"),
            ValidationError::NotBearerToken => String::from_str("not Bearer token"),
            ValidationError::DatabaseError(m) => String::from_str("database error ").concat(m.as_str()),
            ValidationError::NoPermission => String::from_str("no permission"),
        }
    }

    /// The guard's error for a header that gave no token.
    pub fn from_get_claims(e: GetClaimsError) -> (v: ValidationError)
        ensures
            v == match e {
                GetClaimsError::InvalidToken(m) => ValidationError::InvalidToken(m),
                GetClaimsError::NoAuthorizationHeader => ValidationError::NoAuthorizationHeader,
                GetClaimsError::NotUTF8Header => ValidationError::NotUTF8Header,
                GetClaimsError::NotBearerToken => ValidationError::NotBearerToken,
            },
    {
        match e {
            GetClaimsError::InvalidToken(m) => ValidationError::InvalidToken(m),
            GetClaimsError::NoAuthorizationHeader => ValidationError::NoAuthorizationHeader,
            GetClaimsError::NotUTF8Header => ValidationError::NotUTF8Header,
            GetClaimsError::NotBearerToken => ValidationError::NotBearerToken,
        }
    }

    /// The guard's error for a refused permission check.
    pub fn from_check(e: CheckError) -> (v: ValidationError)
        ensures
            v == match e {
                CheckError::DatabaseError(m) => ValidationError::DatabaseError(m),
                CheckError::NoPermission(_) => ValidationError::NoPermission,
            },
    {
        match e {
            CheckError::DatabaseError(m) => ValidationError::DatabaseError(m),
            CheckError::NoPermission(_) => ValidationError::NoPermission,
        }
    }
}

} // verus!
