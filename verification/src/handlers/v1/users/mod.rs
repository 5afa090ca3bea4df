//! The user routes.

pub mod delete;
pub mod get;
pub mod gets;
pub mod invite;
pub mod post;
pub mod login;

use vstd::prelude::*;

verus! {

#[derive(Debug, PartialEq, Eq)]
/// The user routes.
pub enum UserRoute {
    Invite,
    Login,
    Get,
    List,
    Add,
    Update,
    Delete,
}

impl UserRoute {
    /// The action a user must hold to use the route; logging in needs none.
    pub fn required_action(&self) -> (a: Option<&'static str>)
        ensures
            a matches Some(s) ==> s@ == match self {
                UserRoute::Invite => "iam.user.invite"@,
                UserRoute::Get => "iam.user.get"@,
                UserRoute::List => "iam.user.list"@,
                UserRoute::Add => "iam.user.add"@,
                UserRoute::Update => "iam.user.update"@,
                UserRoute::Delete => "iam.user.delete"@,
                UserRoute::Login => Seq::empty(),
            },
            a is None <==> self is Login,
    {
        match self {
            UserRoute::Invite => Some("iam.user.invite"),
            UserRoute::Login => None,
            UserRoute::Get => Some("iam.user.get"),
            UserRoute::List => Some("iam.user.list"),
            UserRoute::Add => Some("iam.user.add"),
            UserRoute::Update => Some("iam.user.update"),
            UserRoute::Delete => Some("iam.user.delete"),
        }
    }
}

} // verus!
