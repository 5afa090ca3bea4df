//! Migration `m20220416_054675935_create_pivot_users_groups`: the table that puts users in groups.

use vstd::prelude::*;

verus! {

#[derive(Debug, PartialEq, Eq)]
pub struct Migration;

impl Migration {
    /// The name the migration is recorded under.
    pub fn name(&self) -> (n: &'static str)
        ensures
            n@ == "m20220416_054675935_create_pivot_users_groups"@,
    {
        "m20220416_054675935_create_pivot_users_groups"
    }
}

} // verus!
