//! Text encodings that the stored form of a password hash is built from.

pub mod base64;
pub mod decimal;
pub mod fields;
