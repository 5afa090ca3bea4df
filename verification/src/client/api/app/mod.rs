//! The requests of an application.

pub mod login;
