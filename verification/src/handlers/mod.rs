//! The decisions of the HTTP handlers.

pub mod internal;
pub mod v1;
