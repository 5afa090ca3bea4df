//! The rows of the service's tables, as the handlers read and write them.

use vstd::prelude::*;
use crate::util::ActiveValue;

verus! {

#[derive(Debug, PartialEq, Eq)]
/// A row of the `users` table.
pub struct UserModel {
    pub id: String,
    pub name: String,
    pub email: String,
    pub password: String,
}

#[derive(Debug, PartialEq, Eq)]
/// A row of the `actions` table.
pub struct ActionModel {
    pub id: String,
    pub name: String,
    pub secure: bool,
}

#[derive(Debug, PartialEq, Eq)]
/// A new row of the `users` table; the database fills in the rest.
pub struct NewUser {
    pub email: String,
    pub name: String,
    pub password: String,
}

#[derive(Debug, PartialEq, Eq)]
/// The columns of a `users` row to write; `NotSet` columns are left alone.
pub struct UserUpdate {
    pub id: ActiveValue<String>,
    pub name: ActiveValue<String>,
    pub email: ActiveValue<String>,
    pub password: ActiveValue<String>,
}

#[derive(Debug, PartialEq, Eq)]
/// A new row of the `actions` table.
pub struct NewAction {
    pub id: ActiveValue<String>,
    pub name: String,
    pub secure: bool,
}

#[derive(Debug, PartialEq, Eq)]
/// The columns of an `actions` row to write; `NotSet` columns are left alone.
pub struct ActionUpdate {
    pub id: ActiveValue<String>,
    pub name: ActiveValue<String>,
    pub secure: ActiveValue<bool>,
}

#[derive(Debug, PartialEq, Eq)]
/// A new row of the `groups` table; only its name is given.
pub struct NewGroup {
    pub name: String,
}

#[derive(Debug, PartialEq, Eq)]
/// How a database statement failed.
pub enum DbError {
    /// The statement ran and was refused, as an insert that breaks a unique key.
    Exec(String),
    /// Any other failure.
    Other(String),
}

} // verus!
