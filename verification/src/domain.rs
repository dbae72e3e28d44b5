//! Contact details that have passed validation.

pub mod email;
pub mod phone;

pub use email::Email;
pub use phone::Phone;
