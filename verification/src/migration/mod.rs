//! The migrations of the database schema.

pub mod m20220416_053618_create_groups;
pub mod m20220416_054675935_create_pivot_users_groups;
pub mod m20220416_060135_add_iam_actions;
pub mod m20220822_190837_remove_invite_action;
pub mod m20221007_211858_apps_permissions;
pub mod m20230226_221912_apps_permission2;

use vstd::prelude::*;
use crate::entity::NewAction;
use crate::util::ActiveValue;

verus! {

/// The row a migration inserts for an action: its id is `ActionID-` followed by a fresh
/// identifier.
pub fn action_row(name: &str, fresh_id: &str, secure: bool) -> (row: NewAction)
    ensures
        row.id matches ActiveValue::Value(id) && id@ == "ActionID-"@ + fresh_id@,
        row.name@ == name@,
        row.secure == secure,
{
    NewAction {
        id: ActiveValue::Value(String::from_str("ActionID-").concat(fresh_id)),
        name: name.to_string(),
        secure,
    }
}

#[derive(Debug, PartialEq, Eq)]
/// Runs the migrations.
pub struct Migrator;

} // verus!
