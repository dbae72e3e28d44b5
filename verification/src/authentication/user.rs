//! Creating an account: the password is hashed, an identity is drawn, and the
//! rows to persist are handed to the caller, who stores them in one
//! transaction and reports how that went.

use crate::authentication::codec::StoredPasswordHash;
use crate::authentication::credentials::{
    lemma_right_password_gives_identity, validated, AuthError, LookupModel,
};
use crate::authentication::identity::{is_random_uuid, Identity};
use crate::authentication::password::{cannot_hash, compute_password_hash, is_hash_of};
use crate::authentication::secret::PlaintextPassword;
use crate::domain::email::Email;
use vstd::prelude::*;

verus! {

/// What a new user gave at sign-up.
pub struct NewUser {
    pub user_name: String,
    pub preferred_name: String,
    pub email: Email,
    pub phone_number: String,
    pub password: PlaintextPassword,
}

/// The rows of a new account, ready to be persisted together.
pub struct NewAccount {
    pub user_id: Identity,
    pub user_name: String,
    pub preferred_name: String,
    pub password_hash: StoredPasswordHash,
    pub email: Email,
    pub phone_number: String,
}

/// How a write to the account store went.
#[derive(Clone, Copy, Debug, PartialEq, Eq, Structural)]
pub enum StoreOutcome {
    /// All rows are stored.
    Stored,
    /// Nothing is stored.
    Failed,
}

/// Whether `account` is what `new_user` gave, with a random identity and a
/// stored hash of the password.
pub open spec fn account_of(new_user: NewUser, account: NewAccount) -> bool {
    &&& is_random_uuid(account.user_id@)
    &&& account.user_name@ == new_user.user_name@
    &&& account.preferred_name@ == new_user.preferred_name@
    &&& account.email@ == new_user.email@
    &&& account.phone_number@ == new_user.phone_number@
    &&& is_hash_of(account.password_hash@, new_user.password@)
}

/// Makes the account of `new_user`: hashes the password under a fresh salt
/// and draws a fresh identity. Nothing is checked of the password's strength
/// or length: the length policy binds password changes only.
///
/// `UnexpectedError` where the password cannot be hashed.
pub fn create_user(new_user: NewUser) -> (result: Result<NewAccount, AuthError>)
    ensures
        match result {
            Ok(account) => account_of(new_user, account),
            Err(e) => e == AuthError::UnexpectedError && cannot_hash(new_user.password@),
        },
{
    let password_hash = match compute_password_hash(&new_user.password) {
        Ok(password_hash) => password_hash,
        Err(_) => { return Err(AuthError::UnexpectedError); },
    };
    let user_id = Identity::generate();
    Ok(
        NewAccount {
            user_id,
            user_name: new_user.user_name,
            preferred_name: new_user.preferred_name,
            password_hash,
            email: new_user.email,
            phone_number: new_user.phone_number,
        },
    )
}

/// What creating an account comes to once the store has answered: the
/// identity where all rows are stored, `UnexpectedError` where none is.
pub fn created(account: &NewAccount, outcome: StoreOutcome) -> (result: Result<Identity, AuthError>)
    ensures
        result == match outcome {
            StoreOutcome::Stored => Ok::<Identity, AuthError>(account.user_id),
            StoreOutcome::Failed => Err::<Identity, AuthError>(AuthError::UnexpectedError),
        },
{
    match outcome {
        StoreOutcome::Stored => Ok(account.user_id),
        StoreOutcome::Failed => Err(AuthError::UnexpectedError),
    }
}

/// The password of a new account validates as the account's identity: where
/// the store answers with the rows of the account as they were made,
/// validating the password that the user gave returns the identity that was
/// drawn.
pub proof fn lemma_new_account_validates(new_user: NewUser, account: NewAccount)
    requires
        account_of(new_user, account),
    ensures
        validated(
            new_user.password@,
            LookupModel::Found {
                identity: account.user_id,
                password_hash: account.password_hash@,
            },
        ) == Ok::<Identity, AuthError>(account.user_id),
{
    lemma_right_password_gives_identity(
        new_user.password@,
        account.password_hash@,
        account.user_id,
    );
}

} // verus!
