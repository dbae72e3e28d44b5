//! Changing the password of an account that has been authenticated.

use crate::authentication::codec::StoredPasswordHash;
use crate::authentication::identity::Identity;
use crate::authentication::kdf::constant_time_eq;
use crate::authentication::password::{cannot_hash, compute_password_hash, is_hash_of};
use crate::authentication::secret::PlaintextPassword;
use crate::authentication::user::StoreOutcome;
use vstd::prelude::*;

verus! {

/// The least length of a new password under the standard policy, in bytes.
pub const MIN_PASSWORD_LEN: usize = 12;

/// The greatest length of a new password under the standard policy, in bytes.
pub const MAX_PASSWORD_LEN: usize = 128;

/// The lengths that a new password may have: `min` to `max` bytes, both
/// included.
#[derive(Clone, Copy, Debug, PartialEq, Eq, Structural)]
pub struct LengthPolicy {
    pub min: usize,
    pub max: usize,
}

/// What is wrong with a new password.
#[derive(Clone, Copy, Debug, PartialEq, Eq, Structural)]
pub enum PolicyViolation {
    /// Its length is outside the policy.
    Length,
    /// The confirmation is not the same text.
    Mismatch,
}

/// Why a password was not changed.
#[derive(Clone, Copy, Debug, PartialEq, Eq, Structural)]
pub enum PasswordChangeError {
    /// The new password is refused; the user can correct it.
    PolicyViolation(PolicyViolation),
    /// Hashing or the account store failed.
    Unexpected,
}

/// The row to overwrite: the account and its new stored hash.
pub struct PasswordUpdate {
    pub user_id: Identity,
    pub password_hash: StoredPasswordHash,
}

impl LengthPolicy {
    /// Whether a password of `len` bytes is allowed.
    pub open spec fn allows(self, len: nat) -> bool {
        self.min <= len <= self.max
    }

    /// The standard policy: 12 to 128 bytes.
    pub fn standard() -> (policy: LengthPolicy)
        ensures
            policy.min == MIN_PASSWORD_LEN,
            policy.max == MAX_PASSWORD_LEN,
    {
        LengthPolicy { min: MIN_PASSWORD_LEN, max: MAX_PASSWORD_LEN }
    }
}

/// What is wrong with a new password and its confirmation under `policy`, the
/// length being looked at first; `None` where nothing is.
pub open spec fn violation(
    new_password: Seq<u8>,
    confirmation: Seq<u8>,
    policy: LengthPolicy,
) -> Option<PolicyViolation> {
    if !policy.allows(new_password.len()) {
        Some(PolicyViolation::Length)
    } else if new_password != confirmation {
        Some(PolicyViolation::Mismatch)
    } else {
        None
    }
}

/// Checks a new password and its confirmation against `policy`.
pub fn check_new_password(
    new_password: &PlaintextPassword,
    confirmation: &PlaintextPassword,
    policy: &LengthPolicy,
) -> (found: Option<PolicyViolation>)
    ensures
        found == violation(new_password@, confirmation@, *policy),
{
    let len: usize = new_password.len();
    if len < policy.min || len > policy.max {
        Some(PolicyViolation::Length)
    } else if !constant_time_eq(new_password.expose_bytes(), confirmation.expose_bytes()) {
        Some(PolicyViolation::Mismatch)
    } else {
        None
    }
}

/// Makes the new stored hash of the account `user_id`.
///
/// The new password is refused with `PolicyViolation` where its length is
/// outside `policy` or the confirmation differs. Otherwise it is hashed under
/// a fresh salt; `Unexpected` where that cannot be done. The old password is
/// not asked for: the caller has authenticated the account.
pub fn change_password(
    user_id: Identity,
    new_password: &PlaintextPassword,
    confirmation: &PlaintextPassword,
    policy: &LengthPolicy,
) -> (result: Result<PasswordUpdate, PasswordChangeError>)
    ensures
        match result {
            Ok(update) => violation(new_password@, confirmation@, *policy) is None
                && update.user_id == user_id && is_hash_of(
                update.password_hash@,
                new_password@,
            ),
            Err(PasswordChangeError::PolicyViolation(v)) => violation(
                new_password@,
                confirmation@,
                *policy,
            ) == Some(v),
            Err(PasswordChangeError::Unexpected) => violation(
                new_password@,
                confirmation@,
                *policy,
            ) is None && cannot_hash(new_password@),
        },
{
    if let Some(v) = check_new_password(new_password, confirmation, policy) {
        return Err(PasswordChangeError::PolicyViolation(v));
    }
    match compute_password_hash(new_password) {
        Ok(password_hash) => Ok(PasswordUpdate { user_id, password_hash }),
        Err(_) => Err(PasswordChangeError::Unexpected),
    }
}

/// What changing a password comes to once the store has answered: done where
/// the row is overwritten, `Unexpected` where it is not.
pub fn changed(outcome: StoreOutcome) -> (result: Result<(), PasswordChangeError>)
    ensures
        result == match outcome {
            StoreOutcome::Stored => Ok::<(), PasswordChangeError>(()),
            StoreOutcome::Failed => Err::<(), PasswordChangeError>(
                PasswordChangeError::Unexpected,
            ),
        },
{
    match outcome {
        StoreOutcome::Stored => Ok(()),
        StoreOutcome::Failed => Err(PasswordChangeError::Unexpected),
    }
}

/// A password outside the policy's lengths is refused whatever else holds.
pub proof fn lemma_length_refused(
    new_password: Seq<u8>,
    confirmation: Seq<u8>,
    policy: LengthPolicy,
)
    requires
        new_password.len() < policy.min || new_password.len() > policy.max,
    ensures
        violation(new_password, confirmation, policy) == Some(PolicyViolation::Length),
{
}

/// A confirmation that differs is refused even where both texts have an
/// allowed length.
pub proof fn lemma_mismatch_refused(
    new_password: Seq<u8>,
    confirmation: Seq<u8>,
    policy: LengthPolicy,
)
    requires
        policy.allows(new_password.len()),
        policy.allows(confirmation.len()),
        new_password != confirmation,
    ensures
        violation(new_password, confirmation, policy) == Some(PolicyViolation::Mismatch),
{
}

} // verus!
