//! The request-facing parts of the service: searching, users and planning.

pub mod planning;
pub mod search;
pub mod users;
