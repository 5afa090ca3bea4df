//! Routes for other services of the system.

pub mod decision;
