//! Password hashing, verification and the decisions built on them.

pub mod change;
pub mod codec;
pub mod credentials;
pub mod identity;
pub mod kdf;
pub mod password;
pub mod secret;
pub mod user;

pub use change::{change_password, LengthPolicy, PasswordChangeError, PasswordUpdate, PolicyViolation};
pub use codec::{decode, encode, DecodeError, HashParts, Params, StoredPasswordHash};
pub use credentials::{validate_credentials, AuthError, Credentials, FallbackHash, Lookup};
pub use identity::{AuthenticatedIdentity, Identity};
pub use password::{compute_password_hash, verify_password_hash, HashError, VerifyOutcome};
pub use secret::PlaintextPassword;
pub use user::{create_user, NewAccount, NewUser, StoreOutcome};
