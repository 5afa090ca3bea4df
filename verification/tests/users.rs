use iam::entity::UserModel;
use iam::handlers::v1::login as first_login;
use iam::handlers::v1::users::invite::{invite, InviteError, InviteRequest, INVITE_TTL_SECONDS};
use iam::handlers::v1::users::login::{
    login_checked, login_encoded, login_found, login_start, login_stored, login_verdict, LoginError,
    LoginRequest, LoginResponse, LoginStep, PasswordCheck,
};
use iam::handlers::v1::users::post::{update_user, PostError, UpdateUserRequest};
use iam::password::{validate, HashType};
use iam::util::ActiveValue;

fn user() -> UserModel {
    UserModel { id: "UserID-1".to_string(), name: "N".to_string(), email: "a@b.hu".to_string(), password: "h".to_string() }
}

#[test]
fn invite_key_and_validation() {
    let req = InviteRequest { email: "someone@example.com".to_string() };
    assert_eq!(req.key(), "/invites/someone@example.com");
    assert!(req.validate().is_ok());
    let bad = InviteRequest { email: "nobody".to_string() };
    assert_eq!(bad.validate().unwrap_err().fields, vec!["email".to_string()]);
    let long = InviteRequest { email: format!("{}@example.com", "a".repeat(250)) };
    assert!(long.validate().is_err());
}

#[test]
fn invite_plan() {
    let req = InviteRequest { email: "someone@example.com".to_string() };
    let plan = invite(&req, Ok(false)).unwrap();
    assert_eq!(plan.key, "/invites/someone@example.com");
    assert_eq!(plan.token.chars().count(), 32);
    assert!(plan.token.chars().all(|c| c.is_ascii_alphanumeric()));
    assert_eq!(plan.ttl_seconds, 86400);
    assert_eq!(INVITE_TTL_SECONDS, 60 * 60 * 24);
    assert_eq!(plan.mail.to, "someone@example.com");
    assert_eq!(plan.mail.from, "verseghy@test.verseghy.net");
    assert_eq!(plan.mail.subject, "Meghívó");
    assert_eq!(plan.mail.body, format!("token: {}", plan.token));
}

#[test]
fn invite_refusals() {
    let req = InviteRequest { email: "someone@example.com".to_string() };
    let e = invite(&req, Ok(true)).unwrap_err();
    assert_eq!(e, InviteError::AlreadyExists);
    assert_eq!(e.into_response(), (400, "user already invited".to_string()));
    let e = invite(&req, Err("down".to_string())).unwrap_err();
    assert_eq!(e.into_response(), (500, "redis error down".to_string()));
    assert_eq!(InviteError::EmailError("x".to_string()).into_response(), (500, "email error".to_string()));
    assert_eq!(InviteError::SmtpError("x".to_string()).into_response(), (500, "smtp error".to_string()));
}

#[test]
fn update_user_without_password() {
    let u = update_user(UpdateUserRequest { id: "U".to_string(), name: Some("M".to_string()), email: None, password: None }).unwrap();
    assert_eq!(u.id, ActiveValue::Value("U".to_string()));
    assert_eq!(u.name, ActiveValue::Value("M".to_string()));
    assert_eq!(u.email, ActiveValue::NotSet);
    assert_eq!(u.password, ActiveValue::NotSet);
}

#[test]
fn update_user_hashes_password() {
    let u = update_user(UpdateUserRequest { id: "U".to_string(), name: None, email: None, password: Some("new".to_string()) }).unwrap();
    match u.password {
        ActiveValue::Value(h) => assert!(validate(HashType::Argon2, &h, &"new".to_string()).unwrap()),
        ActiveValue::NotSet => panic!("password not set"),
    }
}

#[test]
fn update_user_error_response() {
    assert_eq!(PostError::DatabaseError("x".to_string()).into_response(), (500, "database error".to_string()));
}

#[test]
fn login_refuses_bad_input() {
    let step = login_start(LoginRequest { email: "nope".to_string(), password: "pw".to_string() });
    assert!(matches!(step, LoginStep::Finish(Err(LoginError::BadInputData))));
}

#[test]
fn login_looks_up_valid_input() {
    let step = login_start(LoginRequest { email: "a@b.hu".to_string(), password: "pw".to_string() });
    match step {
        LoginStep::FindUser { email, password } => {
            assert_eq!(email, "a@b.hu");
            assert_eq!(password, "pw");
        }
        _ => panic!("expected a lookup"),
    }
}

#[test]
fn login_lookup_outcomes() {
    assert!(matches!(login_found(Ok(None), "pw".to_string()), LoginStep::Finish(Err(LoginError::NoUser))));
    assert!(matches!(login_found(Err("x".to_string()), "pw".to_string()), LoginStep::Finish(Err(LoginError::DatabaseError(_)))));
    assert!(matches!(login_found(Ok(Some(user())), "pw".to_string()), LoginStep::CheckPassword { .. }));
}

#[test]
fn wrong_password_gets_no_token() {
    let step = login_verdict(user(), false, "dev".to_string());
    assert!(matches!(step, LoginStep::Finish(Err(LoginError::WrongPassword))));
    let step = login_checked(user(), Ok(PasswordCheck { valid: false, rehash: None }), "dev".to_string());
    assert!(matches!(step, LoginStep::Finish(Err(LoginError::WrongPassword))));
}

#[test]
fn right_password_gets_token_for_user() {
    let step = login_checked(user(), Ok(PasswordCheck { valid: true, rehash: None }), "node".to_string());
    match step {
        LoginStep::IssueToken { claims } => {
            assert_eq!(claims.subject, "UserID-1");
            assert_eq!(claims.issuer, "node");
            assert_eq!(claims.expires_at - claims.issued_at, 604_800);
        }
        _ => panic!("expected a token"),
    }
}

#[test]
fn rehash_is_stored_first() {
    let step = login_checked(user(), Ok(PasswordCheck { valid: true, rehash: Some(Ok("new".to_string())) }), "dev".to_string());
    assert!(matches!(step, LoginStep::StorePassword { ref hash, valid: true, .. } if hash == "new"));
    let step = login_checked(user(), Ok(PasswordCheck { valid: true, rehash: Some(Err("bad".to_string())) }), "dev".to_string());
    assert!(matches!(step, LoginStep::IssueToken { .. }));
    let step = login_stored(user(), true, Err("down".to_string()), "dev".to_string());
    assert!(matches!(step, LoginStep::Finish(Err(LoginError::DatabaseError(_)))));
    let step = login_stored(user(), false, Ok(()), "dev".to_string());
    assert!(matches!(step, LoginStep::Finish(Err(LoginError::WrongPassword))));
}

#[test]
fn encoded_token_is_the_answer() {
    match login_encoded(Ok("t.o.k".to_string())) {
        LoginStep::Finish(Ok(LoginResponse { token })) => assert_eq!(token, "t.o.k"),
        _ => panic!("expected the token"),
    }
    assert!(matches!(login_encoded(Err("e".to_string())), LoginStep::Finish(Err(LoginError::TokenError(_)))));
}

#[test]
fn login_error_statuses() {
    assert_eq!(LoginError::NoUser.status_code(), 401);
    assert_eq!(LoginError::DatabaseError("x".to_string()).status_code(), 500);
    assert_eq!(LoginError::BadInputData.status_code(), 400);
    assert_eq!(LoginError::WrongPassword.status_code(), 401);
    assert_eq!(LoginError::TokenError("x".to_string()).status_code(), 500);
    assert_eq!(LoginError::NoUser.message(), "no user with this email");
    assert_eq!(LoginError::WrongPassword.message(), "wrong password");
    assert_eq!(LoginError::TokenError("x".to_string()).message(), "failed to generate JWT token");
}

#[test]
fn first_login_route() {
    assert!(first_login::RegisterRequest { email: "a@b.hu".to_string(), password: "pw".to_string() }.validate().is_ok());
    assert!(matches!(first_login::login_found(Ok(None)), Err(first_login::LoginError::NoUser)));
    assert_eq!(first_login::login_finish(true, Ok(())).unwrap(), 200);
    assert!(matches!(first_login::login_finish(false, Ok(())), Err(first_login::LoginError::WrongPassword)));
    let (valid, rehash) = first_login::login_checked(Ok(PasswordCheck { valid: true, rehash: Some(Ok("h".to_string())) })).unwrap();
    assert!(valid);
    assert_eq!(rehash, Some("h".to_string()));
    assert_eq!(first_login::LoginError::BadInputData.status_code(), 400);
    assert_eq!(first_login::LoginError::NoUser.status_code(), 401);
}

#[test]
fn login_token_carries_audience() {
    let step = login_verdict(user(), true, "dev".to_string());
    match step {
        LoginStep::IssueToken { claims } => assert_eq!(claims.audience, vec!["https://verseghy-gimnazium.net".to_string()]),
        _ => panic!("expected a token"),
    }
}

#[test]
fn first_login_refuses_address_without_at() {
    let req = first_login::RegisterRequest { email: "not-an-email".to_string(), password: "pw".to_string() };
    let e = first_login::login_input(&req).unwrap_err();
    assert!(matches!(e, first_login::LoginError::BadInputData));
    assert_eq!(e.status_code(), 400);
}
