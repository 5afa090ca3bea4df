//! The action routes.

pub mod delete;
pub mod get;
pub mod gets;
pub mod post;
pub mod put;

use vstd::prelude::*;

verus! {

#[derive(Debug, PartialEq, Eq)]
/// The action routes.
pub enum ActionRoute {
    Get,
    Update,
    Add,
    Delete,
    List,
}

impl ActionRoute {
    /// The action a user must hold to use the route.
    pub fn required_action(&self) -> (a: &'static str)
        ensures
            a@ == match self {
                ActionRoute::Get => "iam.action.get"@,
                ActionRoute::Update => "iam.action.update"@,
                ActionRoute::Add => "iam.action.add"@,
                ActionRoute::Delete => "iam.action.delete"@,
                ActionRoute::List => "iam.action.list"@,
            },
    {
        match self {
            ActionRoute::Get => "iam.action.get",
            ActionRoute::Update => "iam.action.update",
            ActionRoute::Add => "iam.action.add",
            ActionRoute::Delete => "iam.action.delete",
            ActionRoute::List => "iam.action.list",
        }
    }
}

} // verus!
