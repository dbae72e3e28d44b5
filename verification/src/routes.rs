//! What the request handlers decide: which credentials a form holds, and what
//! is replied to each outcome. Reading requests and writing responses is the
//! caller's work.

pub mod admin;
pub mod login;
pub mod reply;
pub mod signup;
