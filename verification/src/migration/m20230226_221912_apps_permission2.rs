//! Migration `m20230226_221912_apps_permission2`: the actions that guard the other application routes.

use vstd::prelude::*;
use crate::entity::NewAction;
use crate::migration::action_row;
use crate::util::ActiveValue;

verus! {

#[derive(Debug, PartialEq, Eq)]
pub struct Migration;

impl Migration {
    /// The name the migration is recorded under.
    pub fn name(&self) -> (n: &'static str)
        ensures
            n@ == "m20230226_221912_apps_permission2"@,
    {
        "m20230226_221912_apps_permission2"
    }

    /// The names of the actions the migration adds, in order.
    pub fn actions(&self) -> (v: Vec<&'static str>)
        ensures
            v@.map_values(|s: &'static str| s@) == seq!["iam.apps.get"@, "iam.apps.list"@, "iam.apps.update"@, "iam.apps.delete"@],
    {
        let v: Vec<&'static str> = vec!["iam.apps.get", "iam.apps.list", "iam.apps.update", "iam.apps.delete"];
        assert(v@.map_values(|s: &'static str| s@) =~= seq!["iam.apps.get"@, "iam.apps.list"@, "iam.apps.update"@, "iam.apps.delete"@]);
        v
    }

    /// The rows the migration inserts: one per action, in order, every one secure, with
    /// ids `ActionID-` followed by the fresh identifier of the same place.
    pub fn rows(&self, fresh_ids: &Vec<String>) -> (rows: Vec<NewAction>)
        requires
            fresh_ids@.len() == 4,
        ensures
            rows@.len() == 4,
            forall|i: int| 0 <= i < 4 ==> {
                &&& (#[trigger] rows@[i]).secure
                &&& rows@[i].name@ == seq!["iam.apps.get"@, "iam.apps.list"@, "iam.apps.update"@, "iam.apps.delete"@][i]
                &&& rows@[i].id matches ActiveValue::Value(id) && id@ == "ActionID-"@ + fresh_ids@[i]@
            },
    {
        let names = self.actions();
        assert(names@.len() == names@.map_values(|s: &'static str| s@).len());
        let mut rows: Vec<NewAction> = Vec::new();
        let mut i: usize = 0;
        while i < 4
            invariant
                fresh_ids@.len() == 4,
                names@.len() == 4,
                names@.map_values(|s: &'static str| s@) == seq!["iam.apps.get"@, "iam.apps.list"@, "iam.apps.update"@, "iam.apps.delete"@],
                i <= 4,
                rows@.len() == i,
                forall|j: int| 0 <= j < i ==> {
                    &&& (#[trigger] rows@[j]).secure
                    &&& rows@[j].name@ == seq!["iam.apps.get"@, "iam.apps.list"@, "iam.apps.update"@, "iam.apps.delete"@][j]
                    &&& rows@[j].id matches ActiveValue::Value(id) && id@ == "ActionID-"@ + fresh_ids@[j]@
                },
            decreases 4 - i,
        {
            assert(names@.map_values(|s: &'static str| s@)[i as int] == names@[i as int]@);
            rows.push(action_row(names[i], fresh_ids[i].as_str(), true));
            i = i + 1;
        }
        rows
    }
}

} // verus!
