use iam::auth::permission::CheckError;
use iam::entity::{ActionModel, DbError, UserModel};
use iam::handle_error;
use iam::handlers::internal::decision::{decide, decision, Action, Decision, DecisionError, DecisionRequest, DecisionResponse};
use iam::handlers::v1::actions::{self, ActionRoute};
use iam::handlers::v1::add_action::{self, AddActionRequest};
use iam::handlers::v1::get_action;
use iam::handlers::v1::groups::{put::{add_group, AddGroupRequest}, GroupRoute};
use iam::handlers::v1::register::{register, register_inserted, RegisterRequest};
use iam::handlers::v1::users::{delete, get, gets, UserRoute};
use iam::util::ActiveValue;

fn strings(v: &[&str]) -> Vec<String> {
    v.iter().map(|s| s.to_string()).collect()
}

fn request(names: &[&str]) -> DecisionRequest {
    DecisionRequest { action_list: names.iter().map(|n| Action { name: n.to_string() }).collect() }
}

#[test]
fn decision_allows_when_all_held() {
    let res = decide(Ok(strings(&["a", "b"])), &request(&["b", "a"])).unwrap();
    assert_eq!(res, Decision::Allowed);
    assert_eq!(res.status_code(), 204);
}

#[test]
fn decision_reports_first_refused() {
    let res = decide(Ok(strings(&["a"])), &request(&["a", "c", "b"])).unwrap();
    assert_eq!(res, Decision::Refused(DecisionResponse { failed: "c".to_string() }));
    assert_eq!(res.status_code(), 200);
}

#[test]
fn decision_passes_database_error_on() {
    let res = decide(Err("down".to_string()), &request(&["a"]));
    assert_eq!(res, Err(DecisionError::CheckError(CheckError::DatabaseError("down".to_string()))));
    let r = res.unwrap_err().into_response();
    assert_eq!(r, (500, "check error: database error down".to_string()));
}

#[test]
fn decision_of_check_results() {
    assert_eq!(decision(Ok(())), Ok(Decision::Allowed));
    assert_eq!(
        decision(Err(CheckError::NoPermission("x".to_string()))),
        Ok(Decision::Refused(DecisionResponse { failed: "x".to_string() }))
    );
}

#[test]
fn decision_request_names() {
    assert_eq!(request(&["p", "q"]).action_names(), strings(&["p", "q"]));
}

#[test]
fn route_actions() {
    assert_eq!(ActionRoute::Get.required_action(), "iam.action.get");
    assert_eq!(ActionRoute::Update.required_action(), "iam.action.update");
    assert_eq!(ActionRoute::Add.required_action(), "iam.action.add");
    assert_eq!(ActionRoute::Delete.required_action(), "iam.action.delete");
    assert_eq!(ActionRoute::List.required_action(), "iam.action.list");
    assert_eq!(GroupRoute::Get.required_action(), "iam.group.get");
    assert_eq!(GroupRoute::List.required_action(), "iam.group.list");
    assert_eq!(GroupRoute::Update.required_action(), "iam.group.update");
    assert_eq!(GroupRoute::Add.required_action(), "iam.group.add");
    assert_eq!(GroupRoute::Delete.required_action(), "iam.group.delete");
    assert_eq!(UserRoute::Invite.required_action(), Some("iam.user.invite"));
    assert_eq!(UserRoute::Login.required_action(), None);
    assert_eq!(UserRoute::Get.required_action(), Some("iam.user.get"));
    assert_eq!(UserRoute::List.required_action(), Some("iam.user.list"));
    assert_eq!(UserRoute::Add.required_action(), Some("iam.user.add"));
    assert_eq!(UserRoute::Update.required_action(), Some("iam.user.update"));
    assert_eq!(UserRoute::Delete.required_action(), Some("iam.user.delete"));
}

#[test]
fn action_get_and_list() {
    let a = ActionModel { id: "ActionID-1".to_string(), name: "n".to_string(), secure: true };
    let r = actions::get::get_action(Ok(Some(a))).unwrap();
    assert_eq!(r, actions::get::GetResponse { id: "ActionID-1".to_string(), name: "n".to_string(), secure: true });
    let e = actions::get::get_action(Ok(None)).unwrap_err();
    assert_eq!(e.into_response(), (404, "not found".to_string()));
    let e = actions::get::get_action(Err("x".to_string())).unwrap_err();
    assert_eq!(e.into_response(), (500, "database error".to_string()));
    let rows = vec![
        ActionModel { id: "1".to_string(), name: "a".to_string(), secure: false },
        ActionModel { id: "2".to_string(), name: "b".to_string(), secure: true },
    ];
    let g = actions::gets::gets(Ok(rows)).unwrap();
    assert_eq!(g.actions.len(), 2);
    assert_eq!(g.actions[1], actions::gets::Action { id: "2".to_string(), name: "b".to_string(), secure: true });
    let e = actions::gets::gets(Err("x".to_string())).unwrap_err();
    assert_eq!(e.status_code(), 500);
}

#[test]
fn action_add_update_delete() {
    let (row, resp) = actions::put::put(actions::put::AddActionRequest { action: "iam.x".to_string(), secure: true }, "abc");
    assert_eq!(row.id, ActiveValue::Value("ActionID-abc".to_string()));
    assert_eq!(row.name, "iam.x");
    assert!(row.secure);
    assert_eq!(resp.id, "ActionID-abc");
    assert_eq!(actions::put::PutError::DatabaseError("x".to_string()).status_code(), 500);
    let u = actions::post::post(actions::post::UpdateActionRequest { id: "i".to_string(), name: None, secure: Some(false) });
    assert_eq!(u.id, ActiveValue::Value("i".to_string()));
    assert_eq!(u.name, ActiveValue::NotSet);
    assert_eq!(u.secure, ActiveValue::Value(false));
    assert_eq!(actions::post::PostError::DatabaseError("x".to_string()).status_code(), 500);
    assert_eq!(actions::delete::delete_action(Ok(0)), Ok(200));
    let e = actions::delete::delete_action(Err("x".to_string())).unwrap_err();
    assert_eq!(e.into_response(), (500, "database error".to_string()));
}

#[test]
fn first_action_routes() {
    let row = add_action::add_action(AddActionRequest { action: "a".to_string(), secure: true });
    assert_eq!(row.id, ActiveValue::NotSet);
    assert_eq!(row.secure, 1);
    let row = add_action::add_action(AddActionRequest { action: "a".to_string(), secure: false });
    assert_eq!(row.secure, 0);
    assert_eq!(get_action::get_action(true), 200);
    assert_eq!(get_action::get_action(false), 404);
}

#[test]
fn group_add() {
    let (row, resp) = add_group(AddGroupRequest { name: "admins".to_string() }, "xyz");
    assert_eq!(row.name, "admins");
    assert_eq!(resp.id, "GroupID-xyz");
    let e = iam::handlers::v1::groups::put::PutError::DatabaseError("x".to_string());
    assert_eq!(e.into_response(), (500, "database error".to_string()));
}

fn user(id: &str) -> UserModel {
    UserModel { id: id.to_string(), name: "N".to_string(), email: "n@x.hu".to_string(), password: "h".to_string() }
}

#[test]
fn user_delete_get_list() {
    assert_eq!(delete::delete_user(0), Err(delete::DeleteError::NotFoundError));
    assert_eq!(delete::delete_user(3), Ok(204));
    assert_eq!(delete::DeleteError::NotFoundError.into_response(), (404, "user not found".to_string()));
    assert_eq!(delete::DeleteError::DatabaseError("x".to_string()).into_response(), (500, "database error".to_string()));
    let r = get::get_user(Ok(Some(user("U1")))).unwrap();
    assert_eq!(r, get::GetUserResponse { id: "U1".to_string(), name: "N".to_string(), email: "n@x.hu".to_string() });
    assert_eq!(get::get_user(Ok(None)), Err(get::GetError::NotFoundError));
    assert_eq!(get::GetError::NotFoundError.into_response(), (404, "user not found".to_string()));
    let l = gets::list_users(vec![user("A"), user("B")]);
    assert_eq!(l.iter().map(|u| u.id.clone()).collect::<Vec<_>>(), strings(&["A", "B"]));
    assert_eq!(gets::GetsError::DatabaseError("x".to_string()).into_response(), (500, "database error".to_string()));
}

#[test]
fn register_refuses_bad_input() {
    let req = RegisterRequest { email: "not-an-email".to_string(), name: "N".to_string(), password: "pw".to_string() };
    assert_eq!(req.validate().unwrap_err().fields, strings(&["email"]));
    assert_eq!(register(req).unwrap_err(), (400, String::new()));
}

#[test]
fn register_refuses_long_name() {
    let req = RegisterRequest { email: "a@b.hu".to_string(), name: "n".repeat(257), password: "p".repeat(300) };
    assert_eq!(req.validate().unwrap_err().fields, strings(&["name", "password"]));
}

#[test]
fn register_hashes_password() {
    let req = RegisterRequest { email: "a@b.hu".to_string(), name: "N".repeat(256), password: "pw".to_string() };
    let u = register(req).unwrap();
    assert_eq!(u.email, "a@b.hu");
    assert!(iam::password::validate(iam::password::HashType::Argon2, &u.password, &"pw".to_string()).unwrap());
}

#[test]
fn register_insert_answers() {
    assert_eq!(register_inserted(Ok(())), (200, String::new()));
    assert_eq!(register_inserted(Err(DbError::Exec("dup".to_string()))), (400, "Email already exists".to_string()));
    assert_eq!(register_inserted(Err(DbError::Other("down".to_string()))), (500, String::new()));
}

#[test]
fn middleware_errors() {
    assert_eq!(handle_error(true), (408, "Request took too long".to_string()));
    assert_eq!(handle_error(false), (500, String::new()));
}

#[test]
fn database_address() {
    let s = |x: &str| Some(x.to_string());
    assert_eq!(
        iam::database::get_db_uri(s("root"), s("secret"), s("db:3306"), s("iam")),
        Some("mysql://root:secret@db:3306/iam".to_string())
    );
    assert_eq!(iam::database::get_db_uri(s("root"), None, s("db"), s("iam")), None);
}
