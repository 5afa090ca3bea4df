//! Migration `m20220822_190837_remove_invite_action`: drops the `iam.user.invite` action.

use vstd::prelude::*;

verus! {

#[derive(Debug, PartialEq, Eq)]
pub struct Migration;

impl Migration {
    /// The name the migration is recorded under.
    pub fn name(&self) -> (n: &'static str)
        ensures
            n@ == "m20220822_190837_remove_invite_action"@,
    {
        "m20220822_190837_remove_invite_action"
    }

    /// The names of the actions the migration removes, in order; every one is secure.
    pub fn actions(&self) -> (v: Vec<&'static str>)
        ensures
            v@.map_values(|s: &'static str| s@) == seq!["iam.user.invite"@],
    {
        let v: Vec<&'static str> = vec!["iam.user.invite"];
        assert(v@.map_values(|s: &'static str| s@) =~= seq!["iam.user.invite"@]);
        v
    }
}

} // verus!
