//! Migration `m20220416_060135_add_iam_actions`: the actions that guard the routes of this service.

use vstd::prelude::*;
use crate::entity::NewAction;
use crate::migration::action_row;
use crate::util::ActiveValue;

verus! {

#[derive(Debug, PartialEq, Eq)]
pub struct Migration;

impl Migration {
    /// The name the migration is recorded under.
    pub fn name(&self) -> (n: &'static str)
        ensures
            n@ == "m20220416_060135_add_iam_actions"@,
    {
        "m20220416_060135_add_iam_actions"
    }

    /// The names of the actions the migration adds, in order.
    pub fn actions(&self) -> (v: Vec<&'static str>)
        ensures
            v@.map_values(|s: &'static str| s@) == seq!["iam.action.add"@, "iam.action.get"@, "iam.action.update"@, "iam.action.list"@, "iam.action.delete"@, "iam.group.add"@, "iam.group.get"@, "iam.group.list"@, "iam.group.delete"@, "iam.group.edit"@, "iam.user.add"@, "iam.user.get"@, "iam.user.list"@, "iam.user.update"@, "iam.user.invite"@, "iam.user.delete"@, "iam.policy.assign"@],
    {
        let v: Vec<&'static str> = vec!["iam.action.add", "iam.action.get", "iam.action.update", "iam.action.list", "iam.action.delete", "iam.group.add", "iam.group.get", "iam.group.list", "iam.group.delete", "iam.group.edit", "iam.user.add", "iam.user.get", "iam.user.list", "iam.user.update", "iam.user.invite", "iam.user.delete", "iam.policy.assign"];
        assert(v@.map_values(|s: &'static str| s@) =~= seq!["iam.action.add"@, "iam.action.get"@, "iam.action.update"@, "iam.action.list"@, "iam.action.delete"@, "iam.group.add"@, "iam.group.get"@, "iam.group.list"@, "iam.group.delete"@, "iam.group.edit"@, "iam.user.add"@, "iam.user.get"@, "iam.user.list"@, "iam.user.update"@, "iam.user.invite"@, "iam.user.delete"@, "iam.policy.assign"@]);
        v
    }

    /// The rows the migration inserts: one per action, in order, every one secure, with
    /// ids `ActionID-` followed by the fresh identifier of the same place.
    pub fn rows(&self, fresh_ids: &Vec<String>) -> (rows: Vec<NewAction>)
        requires
            fresh_ids@.len() == 17,
        ensures
            rows@.len() == 17,
            forall|i: int| 0 <= i < 17 ==> {
                &&& (#[trigger] rows@[i]).secure
                &&& rows@[i].name@ == seq!["iam.action.add"@, "iam.action.get"@, "iam.action.update"@, "iam.action.list"@, "iam.action.delete"@, "iam.group.add"@, "iam.group.get"@, "iam.group.list"@, "iam.group.delete"@, "iam.group.edit"@, "iam.user.add"@, "iam.user.get"@, "iam.user.list"@, "iam.user.update"@, "iam.user.invite"@, "iam.user.delete"@, "iam.policy.assign"@][i]
                &&& rows@[i].id matches ActiveValue::Value(id) && id@ == "ActionID-"@ + fresh_ids@[i]@
            },
    {
        let names = self.actions();
        assert(names@.len() == names@.map_values(|s: &'static str| s@).len());
        let mut rows: Vec<NewAction> = Vec::new();
        let mut i: usize = 0;
        while i < 17
            invariant
                fresh_ids@.len() == 17,
                names@.len() == 17,
                names@.map_values(|s: &'static str| s@) == seq!["iam.action.add"@, "iam.action.get"@, "iam.action.update"@, "iam.action.list"@, "iam.action.delete"@, "iam.group.add"@, "iam.group.get"@, "iam.group.list"@, "iam.group.delete"@, "iam.group.edit"@, "iam.user.add"@, "iam.user.get"@, "iam.user.list"@, "iam.user.update"@, "iam.user.invite"@, "iam.user.delete"@, "iam.policy.assign"@],
                i <= 17,
                rows@.len() == i,
                forall|j: int| 0 <= j < i ==> {
                    &&& (#[trigger] rows@[j]).secure
                    &&& rows@[j].name@ == seq!["iam.action.add"@, "iam.action.get"@, "iam.action.update"@, "iam.action.list"@, "iam.action.delete"@, "iam.group.add"@, "iam.group.get"@, "iam.group.list"@, "iam.group.delete"@, "iam.group.edit"@, "iam.user.add"@, "iam.user.get"@, "iam.user.list"@, "iam.user.update"@, "iam.user.invite"@, "iam.user.delete"@, "iam.policy.assign"@][j]
                    &&& rows@[j].id matches ActiveValue::Value(id) && id@ == "ActionID-"@ + fresh_ids@[j]@
                },
            decreases 17 - i,
        {
            assert(names@.map_values(|s: &'static str| s@)[i as int] == names@[i as int]@);
            rows.push(action_row(names[i], fresh_ids[i].as_str(), true));
            i = i + 1;
        }
        rows
    }
}

} // verus!
