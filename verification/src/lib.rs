//! Credential authentication for a web backend with user accounts.
//!
//! - [`encoding`]: base64, decimal numbers and separated fields, each with
//!   its text form stated and its reader proved to be the inverse of its
//!   writer.
//! - [`authentication`]: the stored form of a password hash, hashing and
//!   verification, credential validation that answers an unknown address and
//!   a wrong password alike, account creation and password change.
//! - [`domain`]: e-mail addresses and telephone numbers that have passed
//!   validation.
//! - [`routes`]: what the request handlers decide and reply.
//! - [`telemetry`]: what is logged when a task ends.
//!
//! Nothing here reads a request, asks a database or waits for a thread: where
//! a flow needs such work, a step function says what is to be done next and
//! takes the outcome as an event.

pub mod authentication;
pub mod domain;
pub mod encoding;
pub mod routes;
pub mod telemetry;
