use iam::token::{bearer_token, Claims, GetClaimsError, DEFAULT_ISSUER, TOKEN_AUDIENCE, TOKEN_LIFETIME_SECONDS};

#[test]
fn no_header() {
    assert_eq!(bearer_token(None), Err(GetClaimsError::NoAuthorizationHeader));
}

#[test]
fn bearer_header_gives_token() {
    assert_eq!(bearer_token(Some(b"Bearer: abc.def.ghi".as_slice())), Ok(b"abc.def.ghi".to_vec()));
}

#[test]
fn bearer_header_with_empty_token() {
    assert_eq!(bearer_token(Some(b"Bearer: ".as_slice())), Ok(Vec::new()));
}

#[test]
fn tab_is_allowed() {
    assert_eq!(bearer_token(Some(b"Bearer: a\tb".as_slice())), Ok(b"a\tb".to_vec()));
}

#[test]
fn header_without_colon_is_not_bearer() {
    assert_eq!(bearer_token(Some(b"Bearer abc".as_slice())), Err(GetClaimsError::NotBearerToken));
}

#[test]
fn short_header_is_not_bearer() {
    assert_eq!(bearer_token(Some(b"Bearer:".as_slice())), Err(GetClaimsError::NotBearerToken));
}

#[test]
fn other_scheme_is_not_bearer() {
    assert_eq!(bearer_token(Some(b"Basic: abc".as_slice())), Err(GetClaimsError::NotBearerToken));
}

#[test]
fn non_ascii_header_is_refused() {
    assert_eq!(bearer_token(Some("Bearer: é".as_bytes())), Err(GetClaimsError::NotUTF8Header));
    assert_eq!(bearer_token(Some(b"Bearer: a\nb".as_slice())), Err(GetClaimsError::NotUTF8Header));
    assert_eq!(bearer_token(Some(b"\x7f".as_slice())), Err(GetClaimsError::NotUTF8Header));
}

#[test]
fn text_check_comes_before_prefix_check() {
    assert_eq!(bearer_token(Some(b"x\x01".as_slice())), Err(GetClaimsError::NotUTF8Header));
}

#[test]
fn issued_claims() {
    let c = Claims::issued("host".to_string(), "UserID-1".to_string(), 1_000);
    assert_eq!(c.issuer, "host");
    assert_eq!(c.subject, "UserID-1");
    assert_eq!(c.audience, vec!["https://verseghy-gimnazium.net".to_string()]);
    assert_eq!(c.issued_at, 1_000);
    assert_eq!(c.not_before, 1_000);
    assert_eq!(c.expires_at, 605_800);
    assert_eq!(TOKEN_LIFETIME_SECONDS, 7 * 24 * 60 * 60);
    assert_eq!(TOKEN_AUDIENCE, "https://verseghy-gimnazium.net");
}

#[test]
fn issuer_defaults_to_dev() {
    assert_eq!(Claims::issuer_from(None), "dev");
    assert_eq!(DEFAULT_ISSUER, "dev");
    assert_eq!(Claims::issuer_from(Some("node-1".to_string())), "node-1");
}

#[test]
fn new_claims_last_a_week() {
    let c = Claims::new_now("dev".to_string());
    assert_eq!(c.subject, "");
    assert_eq!(c.expires_at - c.issued_at, 604_800);
    assert_eq!(c.not_before, c.issued_at);
    assert!(c.issued_at > 1_600_000_000);
}
