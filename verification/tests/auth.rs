use iam::auth::claims::GetClaimsLayer;
use iam::auth::layer::{self, claims_subject};
use iam::auth::middleware;
use iam::auth::permission::{check, check_actions, CheckError, Permission, ValidationError};
use iam::token::{Claims, GetClaimsError};

fn strings(v: &[&str]) -> Vec<String> {
    v.iter().map(|s| s.to_string()).collect()
}

#[test]
fn all_required_held() {
    let held = strings(&["iam.user.get", "iam.user.list", "iam.action.get"]);
    let required = strings(&["iam.user.list", "iam.user.get"]);
    assert_eq!(check_actions(&held, &required), Ok(()));
}

#[test]
fn first_missing_is_reported() {
    let held = strings(&["iam.user.get"]);
    let required = strings(&["iam.user.get", "iam.user.add", "iam.user.delete"]);
    assert_eq!(
        check_actions(&held, &required),
        Err(CheckError::NoPermission("iam.user.add".to_string()))
    );
}

#[test]
fn nothing_required_is_allowed() {
    assert_eq!(check_actions(&Vec::new(), &Vec::new()), Ok(()));
}

#[test]
fn nothing_held_refuses_first() {
    let required = strings(&["a", "b"]);
    assert_eq!(check_actions(&Vec::new(), &required), Err(CheckError::NoPermission("a".to_string())));
}

#[test]
fn more_held_keeps_permission() {
    let required = strings(&["x"]);
    assert_eq!(check_actions(&strings(&["x"]), &required), Ok(()));
    assert_eq!(check_actions(&strings(&["y", "x", "z"]), &required), Ok(()));
}

#[test]
fn names_are_compared_exactly() {
    let held = strings(&["iam.user"]);
    let required = strings(&["iam.user.get"]);
    assert!(check_actions(&held, &required).is_err());
}

#[test]
fn database_error_is_passed_on() {
    let required = strings(&["a"]);
    assert_eq!(
        check(Err("connection lost".to_string()), &required),
        Err(CheckError::DatabaseError("connection lost".to_string()))
    );
    assert_eq!(check(Ok(strings(&["a"])), &required), Ok(()));
}

#[test]
fn check_error_messages() {
    assert_eq!(CheckError::DatabaseError("x".to_string()).message(), "database error x");
    assert_eq!(CheckError::NoPermission("a".to_string()).message(), "no permission");
}

#[test]
fn permission_guard_statuses() {
    assert_eq!(ValidationError::InvalidToken("bad".to_string()).status_code(), 401);
    assert_eq!(ValidationError::NoAuthorizationHeader.status_code(), 400);
    assert_eq!(ValidationError::NotUTF8Header.status_code(), 400);
    assert_eq!(ValidationError::NotBearerToken.status_code(), 400);
    assert_eq!(ValidationError::DatabaseError("x".to_string()).status_code(), 500);
    assert_eq!(ValidationError::NoPermission.status_code(), 403);
}

#[test]
fn permission_guard_messages() {
    assert_eq!(ValidationError::InvalidToken("bad".to_string()).message(), "invalid token");
    assert_eq!(ValidationError::NoAuthorizationHeader.message(), "no authorization header");
    assert_eq!(ValidationError::NotUTF8Header.message(), "not a utf-8 header");
    assert_eq!(ValidationError::NotBearerToken.message(), "not Bearer token");
    assert_eq!(ValidationError::DatabaseError("x".to_string()).message(), "database error x");
    assert_eq!(ValidationError::NoPermission.message(), "no permission");
}

#[test]
fn guard_errors_from_parts() {
    assert_eq!(
        ValidationError::from_get_claims(GetClaimsError::NotBearerToken),
        ValidationError::NotBearerToken
    );
    assert_eq!(
        ValidationError::from_check(CheckError::NoPermission("a".to_string())),
        ValidationError::NoPermission
    );
    assert_eq!(
        ValidationError::from_check(CheckError::DatabaseError("d".to_string())),
        ValidationError::DatabaseError("d".to_string())
    );
}

#[test]
fn middleware_statuses() {
    type V = middleware::ValidationError;
    assert_eq!(V::GetClaimsError(GetClaimsError::InvalidToken("t".to_string())).status_code(), 401);
    assert_eq!(V::GetClaimsError(GetClaimsError::NoAuthorizationHeader).status_code(), 400);
    assert_eq!(V::GetClaimsError(GetClaimsError::NotUTF8Header).status_code(), 400);
    assert_eq!(V::GetClaimsError(GetClaimsError::NotBearerToken).status_code(), 400);
    assert_eq!(V::CheckError(CheckError::NoPermission("a".to_string())).status_code(), 500);
}

#[test]
fn layer_responses() {
    type V = layer::ValidationError;
    assert_eq!(V::GetClaimsError.into_response(), (401, "get claims error".to_string()));
    assert_eq!(
        V::CheckError(CheckError::NoPermission("a".to_string())).into_response(),
        (403, "check error: no permission".to_string())
    );
    assert_eq!(
        V::CheckError(CheckError::DatabaseError("down".to_string())).into_response(),
        (500, "check error: database error down".to_string())
    );
}

#[test]
fn layer_needs_claims() {
    let c = Claims::issued("dev".to_string(), "UserID-7".to_string(), 0);
    assert_eq!(claims_subject(Some(&c)), Ok("UserID-7".to_string()));
    assert_eq!(claims_subject(None), Err(layer::ValidationError::GetClaimsError));
    assert_eq!(layer::validate(Ok(())), Ok(()));
    assert_eq!(
        layer::validate(Err(CheckError::NoPermission("a".to_string()))),
        Err(layer::ValidationError::CheckError(CheckError::NoPermission("a".to_string())))
    );
}

#[test]
fn permission_guard_keeps_its_actions() {
    const ACTIONS: &[&str] = &["iam.user.get", "iam.user.list"];
    let p = Permission::new(ACTIONS);
    assert_eq!(p.required(), ACTIONS);
    let m = p.new_transform(42u8);
    assert_eq!(m.required(), ACTIONS);
    assert_eq!(*m.inner(), 42u8);
    let q = middleware::Permission::new(ACTIONS);
    let n = q.new_transform("svc");
    assert_eq!(n.required(), ACTIONS);
}

#[test]
fn claims_layer_wraps_service() {
    let mut g = GetClaimsLayer.layer(5u32);
    assert_eq!(*g.inner(), 5u32);
}
