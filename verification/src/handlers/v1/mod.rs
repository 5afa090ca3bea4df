//! Version 1 of the API.

pub mod actions;
pub mod add_action;
pub mod get_action;
pub mod groups;
pub mod login;
pub mod register;
pub mod users;
