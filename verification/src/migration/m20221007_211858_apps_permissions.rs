//! Migration `m20221007_211858_apps_permissions`: the action that guards creating applications.

use vstd::prelude::*;
use crate::entity::NewAction;
use crate::migration::action_row;
use crate::util::ActiveValue;

verus! {

#[derive(Debug, PartialEq, Eq)]
pub struct Migration;

impl Migration {
    /// The name the migration is recorded under.
    pub fn name(&self) -> (n: &'static str)
        ensures
            n@ == "m20221007_211858_apps_permissions"@,
    {
        "m20221007_211858_apps_permissions"
    }

    /// The names of the actions the migration adds, in order.
    pub fn actions(&self) -> (v: Vec<&'static str>)
        ensures
            v@.map_values(|s: &'static str| s@) == seq!["iam.apps.create"@],
    {
        let v: Vec<&'static str> = vec!["iam.apps.create"];
        assert(v@.map_values(|s: &'static str| s@) =~= seq!["iam.apps.create"@]);
        v
    }

    /// The rows the migration inserts: one per action, in order, every one secure, with
    /// ids `ActionID-` followed by the fresh identifier of the same place.
    pub fn rows(&self, fresh_ids: &Vec<String>) -> (rows: Vec<NewAction>)
        requires
            fresh_ids@.len() == 1,
        ensures
            rows@.len() == 1,
            forall|i: int| 0 <= i < 1 ==> {
                &&& (#[trigger] rows@[i]).secure
                &&& rows@[i].name@ == seq!["iam.apps.create"@][i]
                &&& rows@[i].id matches ActiveValue::Value(id) && id@ == "ActionID-"@ + fresh_ids@[i]@
            },
    {
        let names = self.actions();
        assert(names@.len() == names@.map_values(|s: &'static str| s@).len());
        let mut rows: Vec<NewAction> = Vec::new();
        let mut i: usize = 0;
        while i < 1
            invariant
                fresh_ids@.len() == 1,
                names@.len() == 1,
                names@.map_values(|s: &'static str| s@) == seq!["iam.apps.create"@],
                i <= 1,
                rows@.len() == i,
                forall|j: int| 0 <= j < i ==> {
                    &&& (#[trigger] rows@[j]).secure
                    &&& rows@[j].name@ == seq!["iam.apps.create"@][j]
                    &&& rows@[j].id matches ActiveValue::Value(id) && id@ == "ActionID-"@ + fresh_ids@[j]@
                },
            decreases 1 - i,
        {
            assert(names@.map_values(|s: &'static str| s@)[i as int] == names@[i as int]@);
            rows.push(action_row(names[i], fresh_ids[i].as_str(), true));
            i = i + 1;
        }
        rows
    }
}

} // verus!
