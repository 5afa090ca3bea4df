//! Migration `m20220416_053618_create_groups`: the `groups` table.

use vstd::prelude::*;

verus! {

#[derive(Debug, PartialEq, Eq)]
pub struct Migration;

impl Migration {
    /// The name the migration is recorded under.
    pub fn name(&self) -> (n: &'static str)
        ensures
            n@ == "m20220416_053618_create_groups"@,
    {
        "m20220416_053618_create_groups"
    }
}

} // verus!
