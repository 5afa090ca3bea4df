//! The group routes.

pub mod put;

use vstd::prelude::*;

verus! {

#[derive(Debug, PartialEq, Eq)]
/// The group routes.
pub enum GroupRoute {
    Get,
    List,
    Update,
    Add,
    Delete,
}

impl GroupRoute {
    /// The action a user must hold to use the route.
    pub fn required_action(&self) -> (a: &'static str)
        ensures
            a@ == match self {
                GroupRoute::Get => "iam.group.get"@,
                GroupRoute::List => "iam.group.list"@,
                GroupRoute::Update => "iam.group.update"@,
                GroupRoute::Add => "iam.group.add"@,
                GroupRoute::Delete => "iam.group.delete"@,
            },
    {
        match self {
            GroupRoute::Get => "iam.group.get",
            GroupRoute::List => "iam.group.list",
            GroupRoute::Update => "iam.group.update",
            GroupRoute::Add => "iam.group.add",
            GroupRoute::Delete => "iam.group.delete",
        }
    }
}

} // verus!
