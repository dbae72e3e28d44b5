//! Requests of a user who is logged in.

pub mod newsletters;
pub mod password;
