//! Token claims and the extraction of a bearer token from an `Authorization` header.

use vstd::prelude::*;

verus! {

/// The audience every token of this service is issued for.
pub const TOKEN_AUDIENCE: &'static str = "https://verseghy-gimnazium.net";

/// How long a token stays valid: one week, in seconds.
pub const TOKEN_LIFETIME_SECONDS: i64 = 604800;

/// The issuer named when the host name is not known.
pub const DEFAULT_ISSUER: &'static str = "dev";

#[derive(Debug, PartialEq, Eq)]
/// The claims carried by a token.
pub struct Claims {
    pub issuer: String,
    pub subject: String,
    pub audience: Vec<String>,
    pub expires_at: i64,
    pub not_before: i64,
    pub issued_at: i64,
}

/// Reads the current UNIX time in seconds with `chrono::Utc::now().timestamp()`.
/// Claimed: only that the value is not negative (on this target `Utc::now` takes the
/// system time as a duration since the UNIX epoch, and stops rather than return an
/// earlier time) and lies in the range of dates that `chrono` represents (up to the
/// year 262142), well below `10^13`. Which instant is read is left unsaid: it is the
/// machine's clock.
#[verifier::external_body]
fn current_timestamp() -> (t: i64)
    ensures
        0 <= t <= 10_000_000_000_000,
{
    chrono::Utc::now().timestamp()
}

/// A value the clock can give: a UNIX time in seconds, not before the epoch and within
/// the dates that `chrono` represents.
pub open spec fn is_clock_reading(t: i64) -> bool {
    0 <= t <= 10_000_000_000_000
}

impl Claims {
    /// Claims for `subject`, issued by `issuer` at time `now` (UNIX seconds): valid from
    /// `now` for one week, for the audience of this service.
    pub fn issued(issuer: String, subject: String, now: i64) -> (c: Claims)
        requires
            now <= i64::MAX - TOKEN_LIFETIME_SECONDS,
        ensures
            c.issuer == issuer,
            c.subject == subject,
            c.audience@.len() == 1,
            c.audience@[0]@ == TOKEN_AUDIENCE@,
            c.issued_at == now,
            c.not_before == now,
            c.expires_at == now + TOKEN_LIFETIME_SECONDS,
    {
        let mut audience: Vec<String> = Vec::new();
        audience.push(TOKEN_AUDIENCE.to_string());
        Claims {
            issuer,
            subject,
            audience,
            expires_at: now + TOKEN_LIFETIME_SECONDS,
            not_before: now,
            issued_at: now,
        }
    }

    /// The issuer of new tokens: the host name when it is known, else [`DEFAULT_ISSUER`].
    pub fn issuer_from(hostname: Option<String>) -> (s: String)
        ensures
            hostname matches Some(h) ==> s == h,
            hostname is None ==> s@ == DEFAULT_ISSUER@,
    {
        match hostname {
            Some(h) => h,
            None => DEFAULT_ISSUER.to_string(),
        }
    }

    /// Claims with an empty subject, issued now by `issuer`: what a new token starts from.
    pub fn new_now(issuer: String) -> (c: Claims)
        ensures
            c.issuer == issuer,
            c.subject@.len() == 0,
            c.audience@.len() == 1,
            c.audience@[0]@ == TOKEN_AUDIENCE@,
            c.not_before == c.issued_at,
            c.expires_at == c.issued_at + TOKEN_LIFETIME_SECONDS,
            is_clock_reading(c.issued_at),
    {
        let now = current_timestamp();
        Claims::issued(issuer, String::new(), now)
    }
}

#[derive(Debug, PartialEq, Eq)]
/// Why no claims could be read from a request.
pub enum GetClaimsError {
    /// The token was refused by the decoder; the text is the decoder's message.
    InvalidToken(String),
    NoAuthorizationHeader,
    NotUTF8Header,
    NotBearerToken,
}

/// Bytes that a header value may hold and still be read as text: visible ASCII and tab.
pub open spec fn is_visible_ascii(b: u8) -> bool {
    (32 <= b && b < 127) || b == 9
}

pub open spec fn all_visible_ascii(s: Seq<u8>) -> bool {
    forall|i: int| 0 <= i < s.len() ==> is_visible_ascii(#[trigger] s[i])
}

/// The bytes of `"Bearer: "`, which must open the `Authorization` header.
pub open spec fn bearer_prefix() -> Seq<u8> {
    seq![66u8, 101u8, 97u8, 114u8, 101u8, 114u8, 58u8, 32u8]
}

/// What [`bearer_token`] gives for a header value, or for no header.
pub open spec fn bearer_token_outcome(header: Option<Seq<u8>>) -> Result<Seq<u8>, GetClaimsError> {
    match header {
        None => Err(GetClaimsError::NoAuthorizationHeader),
        Some(h) => if !all_visible_ascii(h) {
            Err(GetClaimsError::NotUTF8Header)
        } else if h.len() >= 8 && h.subrange(0, 8) == bearer_prefix() {
            Ok(h.subrange(8, h.len() as int))
        } else {
            Err(GetClaimsError::NotBearerToken)
        },
    }
}

fn bearer_prefix_bytes() -> (v: Vec<u8>)
    ensures
        v@ == bearer_prefix(),
{
    let v: Vec<u8> = vec![66u8, 101u8, 97u8, 114u8, 101u8, 114u8, 58u8, 32u8];
    assert(v@ =~= bearer_prefix());
    v
}

/// The bytes of a header value, if there is one.
pub open spec fn header_view(header: Option<&[u8]>) -> Option<Seq<u8>> {
    match header {
        Some(h) => Some(h@),
        None => None,
    }
}

/// The token of an `Authorization` header of the form `Bearer: <token>`: the header must
/// be present, hold only visible ASCII (or tabs), and start with `Bearer: `.
pub fn bearer_token(header: Option<&[u8]>) -> (res: Result<Vec<u8>, GetClaimsError>)
    ensures
        match res {
            Ok(t) => bearer_token_outcome(header_view(header)) == Ok::<Seq<u8>, GetClaimsError>(t@),
            Err(e) => bearer_token_outcome(header_view(header)) == Err::<Seq<u8>, GetClaimsError>(e),
        },
{
    let h = match header {
        None => return Err(GetClaimsError::NoAuthorizationHeader),
        Some(h) => h,
    };
    let n = h.len();
    let mut i: usize = 0;
    while i < n
        invariant
            header == Some(h),
            n == h@.len(),
            i <= n,
            forall|j: int| 0 <= j < i ==> is_visible_ascii(#[trigger] h@[j]),
        decreases n - i,
    {
        let b = h[i];
        if !((32 <= b && b < 127) || b == 9) {
            assert(!is_visible_ascii(h@[i as int]));
            return Err(GetClaimsError::NotUTF8Header);
        }
        i = i + 1;
    }
    assert(all_visible_ascii(h@));
    let prefix = bearer_prefix_bytes();
    if n < 8 {
        return Err(GetClaimsError::NotBearerToken);
    }
    let mut k: usize = 0;
    while k < 8
        invariant
            header == Some(h),
            n == h@.len(),
            8 <= n,
            all_visible_ascii(h@),
            prefix@ == bearer_prefix(),
            k <= 8,
            forall|j: int| 0 <= j < k ==> h@[j] == prefix@[j],
        decreases 8 - k,
    {
        if h[k] != prefix[k] {
            assert(h@.subrange(0, 8)[k as int] != bearer_prefix()[k as int]);
            return Err(GetClaimsError::NotBearerToken);
        }
        k = k + 1;
    }
    assert(h@.subrange(0, 8) =~= bearer_prefix());
    let mut token: Vec<u8> = Vec::new();
    let mut m: usize = 8;
    while m < n
        invariant
            header == Some(h),
            n == h@.len(),
            8 <= m <= n,
            all_visible_ascii(h@),
            h@.subrange(0, 8) == bearer_prefix(),
            token@ == h@.subrange(8, m as int),
        decreases n - m,
    {
        token.push(h[m]);
        m = m + 1;
        assert(token@ =~= h@.subrange(8, m as int));
    }
    Ok(token)
}

/// A header built as `Bearer: ` followed by a token of visible ASCII gives back that token.
pub proof fn lemma_bearer_token_roundtrip(token: Seq<u8>)
    requires
        all_visible_ascii(token),
    ensures
        bearer_token_outcome(Some(bearer_prefix() + token)) == Ok::<Seq<u8>, GetClaimsError>(token),
{
    let h = bearer_prefix() + token;
    assert(h.subrange(0, 8) =~= bearer_prefix());
    assert(h.subrange(8, h.len() as int) =~= token);
    assert forall|i: int| 0 <= i < h.len() implies is_visible_ascii(#[trigger] h[i]) by {
        if i >= 8 {
            assert(h[i] == token[i - 8]);
        }
    }
}

/// A token read from a header is what follows `Bearer: ` there, and is visible ASCII.
pub proof fn lemma_bearer_token_is_suffix(header: Seq<u8>)
    requires
        bearer_token_outcome(Some(header)) is Ok,
    ensures
        ({
            let t = bearer_token_outcome(Some(header))->Ok_0;
            &&& header == bearer_prefix() + t
            &&& all_visible_ascii(t)
        }),
{
    let t = bearer_token_outcome(Some(header))->Ok_0;
    assert(header =~= bearer_prefix() + t);
}

} // verus!
