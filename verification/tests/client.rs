use iam::client::api::{authorization, resolve, ApiError, ErrorOr};
use iam::client::api::user::get_user_path;
use iam::client::error::{unwrap_res, ClientError, ErrorMessage};
use iam::client::utils::{bearer_header_value, Either};
use iam::client::Iam;
use iam::migration;
use iam::token::bearer_token;

#[test]
fn urls_join_base_and_path() {
    let iam = Iam::new("https://iam.example");
    assert_eq!(iam.get_url("/v1/users/login"), "https://iam.example/v1/users/login");
    assert_eq!(get_user_path("UserID-5"), "/v1/users/UserID-5");
}

#[test]
fn replies_unwrap() {
    let ok: Either<u32, ErrorMessage> = Either::Left(7);
    assert!(matches!(unwrap_res(ok), Ok(7)));
    let err: Either<u32, ErrorMessage> = Either::Right(ErrorMessage { code: "E1".to_string(), message: "bad".to_string() });
    match unwrap_res(err) {
        Err(ClientError::Iam(m)) => assert_eq!(m, ErrorMessage { code: "E1".to_string(), message: "bad".to_string() }),
        _ => panic!("expected the service's error"),
    }
    let e = ApiError { code: "c".to_string(), error: "e".to_string() };
    assert_eq!(resolve::<u8>(ErrorOr::Error(ApiError { code: "c".to_string(), error: "e".to_string() })), Err(e));
    assert_eq!(resolve(ErrorOr::Data(3u8)), Ok(3u8));
}

#[test]
fn client_header() {
    assert_eq!(bearer_header_value("tok"), "Bearer tok");
    assert_eq!(authorization(&Some("tok".to_string())), Some("Bearer tok".to_string()));
    assert_eq!(authorization(&None), None);
}

#[test]
fn client_header_is_not_the_servers_form() {
    let h = bearer_header_value("tok");
    assert!(bearer_token(Some(h.as_bytes())).is_err());
}

#[test]
fn migration_names_and_actions() {
    assert_eq!(migration::m20220416_053618_create_groups::Migration.name(), "m20220416_053618_create_groups");
    assert_eq!(
        migration::m20220416_054675935_create_pivot_users_groups::Migration.name(),
        "m20220416_054675935_create_pivot_users_groups"
    );
    let m = migration::m20220416_060135_add_iam_actions::Migration;
    assert_eq!(m.name(), "m20220416_060135_add_iam_actions");
    assert_eq!(m.actions().len(), 17);
    assert_eq!(m.actions()[0], "iam.action.add");
    assert_eq!(m.actions()[16], "iam.policy.assign");
    assert_eq!(migration::m20220822_190837_remove_invite_action::Migration.actions(), vec!["iam.user.invite"]);
    assert_eq!(migration::m20221007_211858_apps_permissions::Migration.actions(), vec!["iam.apps.create"]);
    assert_eq!(
        migration::m20230226_221912_apps_permission2::Migration.actions(),
        vec!["iam.apps.get", "iam.apps.list", "iam.apps.update", "iam.apps.delete"]
    );
    let _ = migration::Migrator;
}

#[test]
fn migration_rows() {
    let row = migration::action_row("iam.apps.get", "q1", true);
    assert_eq!(row.id, iam::util::ActiveValue::Value("ActionID-q1".to_string()));
    assert_eq!(row.name, "iam.apps.get");
    assert!(row.secure);
}

#[test]
fn migration_rows_are_secure() {
    let ids: Vec<String> = (0..17).map(|i| format!("id{}", i)).collect();
    let rows = migration::m20220416_060135_add_iam_actions::Migration.rows(&ids);
    assert_eq!(rows.len(), 17);
    assert!(rows.iter().all(|r| r.secure));
    assert_eq!(rows[0].name, "iam.action.add");
    assert_eq!(rows[16].id, iam::util::ActiveValue::Value("ActionID-id16".to_string()));
    let rows = migration::m20221007_211858_apps_permissions::Migration.rows(&vec!["x".to_string()]);
    assert_eq!(rows.len(), 1);
    assert!(rows[0].secure);
    assert_eq!(rows[0].name, "iam.apps.create");
    let ids: Vec<String> = (0..4).map(|i| i.to_string()).collect();
    let rows = migration::m20230226_221912_apps_permission2::Migration.rows(&ids);
    assert_eq!(rows.iter().map(|r| r.name.clone()).collect::<Vec<_>>(), vec!["iam.apps.get", "iam.apps.list", "iam.apps.update", "iam.apps.delete"]);
    assert!(rows.iter().all(|r| r.secure));
}
