//! Hashing a password into its stored form, and verifying a password against
//! a stored hash.

use crate::authentication::codec::{
    decode, decoding, encode, encoding, lemma_decoding_encoding, lemma_encoding_injective,
    standard_params, well_formed, HashModel, HashParts, Params, StoredPasswordHash, MAX_SALT_LEN,
    MIN_SALT_LEN,
};
use crate::authentication::kdf::{
    addressable, argon2_tag, constant_time_eq, derive_key, is_addressable, random_bytes,
};
use crate::authentication::secret::PlaintextPassword;
use vstd::prelude::*;

verus! {

/// The number of bytes in the salt of a new hash.
pub const SALT_LEN: usize = 16;

/// The number of bytes in the key of a new hash.
pub const KEY_LEN: usize = 32;

/// Why a password could not be hashed.
#[derive(Clone, Copy, Debug, PartialEq, Eq, Structural)]
pub enum HashError {
    /// The key-derivation function could not run on this input.
    HashingUnavailable,
}

/// How a password compares with a stored hash.
#[derive(Clone, Copy, Debug, PartialEq, Eq, Structural)]
pub enum VerifyOutcome {
    /// The password gives the stored key.
    Match,
    /// Anything else: another key, or a text that is no stored hash.
    NoMatch,
}

/// The hash of `password` under `salt` and the standard parameters: the key
/// of `KEY_LEN` bytes that they derive, with what it was derived from.
pub open spec fn hash_model(password: Seq<u8>, salt: Seq<u8>) -> Option<HashModel> {
    match argon2_tag(standard_params(), password, salt, KEY_LEN as nat) {
        Some(key) => if key.len() == KEY_LEN {
            Some(HashModel { params: standard_params(), salt, key })
        } else {
            None
        },
        None => None,
    }
}

/// The stored hash of `password` under `salt`: the stored form of the key
/// that the standard parameters derive. `None` where no key is derived or
/// the salt's length is out of bounds.
pub open spec fn hashed(password: Seq<u8>, salt: Seq<u8>) -> Option<Seq<u8>> {
    match hash_model(password, salt) {
        Some(h) => if well_formed(h) {
            Some(encoding(h))
        } else {
            None
        },
        None => None,
    }
}

/// Whether `stored` is a stored hash of `password`: its hash under some salt
/// of `SALT_LEN` bytes.
pub open spec fn is_hash_of(stored: Seq<u8>, password: Seq<u8>) -> bool {
    exists|salt: Seq<u8>| salt.len() == SALT_LEN && #[trigger] hashed(password, salt) == Some(stored)
}

/// Whether `password` has no hash under some salt of `SALT_LEN` bytes.
pub open spec fn cannot_hash(password: Seq<u8>) -> bool {
    exists|salt: Seq<u8>| salt.len() == SALT_LEN && #[trigger] hashed(password, salt) is None
}

/// Whether `password` gives the key of the hash `h`.
pub open spec fn gives_key(password: Seq<u8>, h: HashModel) -> bool {
    addressable(h.params) && argon2_tag(h.params, password, h.salt, h.key.len()) == Some(h.key)
}

/// How `password` compares with the text `stored`: `Match` where the text is
/// a stored hash and the password gives its key under its own parameters and
/// salt.
pub open spec fn verified(password: Seq<u8>, stored: Seq<u8>) -> VerifyOutcome {
    match decoding(stored) {
        Some(h) => if gives_key(password, h) {
            VerifyOutcome::Match
        } else {
            VerifyOutcome::NoMatch
        },
        None => VerifyOutcome::NoMatch,
    }
}

/// How a derived key compares with the stored one: `Match` where a key was
/// derived and holds the same bytes.
pub fn outcome_of(stored_key: &[u8], derived: &Option<Vec<u8>>) -> (outcome: VerifyOutcome)
    ensures
        outcome == VerifyOutcome::Match <==> (derived matches Some(key) && key@ == stored_key@),
{
    match derived {
        Some(key) => if constant_time_eq(stored_key, key.as_slice()) {
            VerifyOutcome::Match
        } else {
            VerifyOutcome::NoMatch
        },
        None => VerifyOutcome::NoMatch,
    }
}

/// Hashes `password` under `salt` and the standard parameters.
///
/// The same password and salt always give the same stored hash.
pub fn compute_password_hash_with_salt(password: &PlaintextPassword, salt: &[u8]) -> (result: Result<
    StoredPasswordHash,
    HashError,
>)
    ensures
        match result {
            Ok(stored) => hashed(password@, salt@) == Some(stored@),
            Err(e) => e == HashError::HashingUnavailable && hashed(password@, salt@) is None,
        },
{
    if salt.len() < MIN_SALT_LEN || salt.len() > MAX_SALT_LEN {
        return Err(HashError::HashingUnavailable);
    }
    let params = Params::standard();
    let key = match derive_key(&params, password.expose_bytes(), salt, KEY_LEN) {
        Some(key) => key,
        None => { return Err(HashError::HashingUnavailable); },
    };
    match HashParts::new(params, vstd::slice::slice_to_vec(salt), key) {
        Some(parts) => Ok(encode(&parts)),
        None => Err(HashError::HashingUnavailable),
    }
}

/// Hashes `password` under a fresh random salt of `SALT_LEN` bytes.
pub fn compute_password_hash(password: &PlaintextPassword) -> (result: Result<
    StoredPasswordHash,
    HashError,
>)
    ensures
        match result {
            Ok(stored) => is_hash_of(stored@, password@),
            Err(e) => e == HashError::HashingUnavailable && cannot_hash(password@),
        },
{
    let salt = random_bytes(SALT_LEN);
    compute_password_hash_with_salt(password, salt.as_slice())
}

/// Verifies `password` against a stored hash.
///
/// A text that is no stored hash gives `NoMatch`, as a wrong password does.
pub fn verify_password_hash(password: &PlaintextPassword, stored: &StoredPasswordHash) -> (outcome:
    VerifyOutcome)
    ensures
        outcome == verified(password@, stored@),
{
    let parts = match decode(stored) {
        Ok(parts) => parts,
        Err(_) => { return VerifyOutcome::NoMatch; },
    };
    let params = parts.params();
    if !is_addressable(&params) {
        return VerifyOutcome::NoMatch;
    }
    let derived = derive_key(&params, password.expose_bytes(), parts.salt(), parts.key().len());
    outcome_of(parts.key(), &derived)
}

/// A password matches its own hash: whatever the salt, the stored hash of a
/// password verifies against that password.
pub proof fn lemma_own_password_matches(password: Seq<u8>, salt: Seq<u8>)
    requires
        hashed(password, salt) is Some,
    ensures
        verified(password, hashed(password, salt)->0) == VerifyOutcome::Match,
{
    lemma_decoding_encoding(hash_model(password, salt)->0);
}

/// Another password matches a hash only where it derives the very same key:
/// verifying `other` against the stored hash of `password` gives `Match` if
/// and only if both passwords derive one key under the hash's salt.
pub proof fn lemma_other_password_matches_only_on_collision(
    password: Seq<u8>,
    other: Seq<u8>,
    salt: Seq<u8>,
)
    requires
        hashed(password, salt) is Some,
    ensures
        verified(other, hashed(password, salt)->0) == VerifyOutcome::Match <==> argon2_tag(
            standard_params(),
            other,
            salt,
            KEY_LEN as nat,
        ) == argon2_tag(standard_params(), password, salt, KEY_LEN as nat),
{
    lemma_decoding_encoding(hash_model(password, salt)->0);
}

/// A password matches every stored hash that was made of it.
pub proof fn lemma_hash_verifies(password: Seq<u8>, stored: Seq<u8>)
    requires
        is_hash_of(stored, password),
    ensures
        verified(password, stored) == VerifyOutcome::Match,
{
    let salt = choose|salt: Seq<u8>|
        salt.len() == SALT_LEN && #[trigger] hashed(password, salt) == Some(stored);
    lemma_own_password_matches(password, salt);
}

/// A password that derives another key does not match: the stored hash of
/// `password` gives `NoMatch` for every `other` whose key differs.
pub proof fn lemma_other_password_fails(password: Seq<u8>, other: Seq<u8>, salt: Seq<u8>)
    requires
        hashed(password, salt) is Some,
        argon2_tag(standard_params(), other, salt, KEY_LEN as nat) != argon2_tag(
            standard_params(),
            password,
            salt,
            KEY_LEN as nat,
        ),
    ensures
        verified(other, hashed(password, salt)->0) == VerifyOutcome::NoMatch,
{
    lemma_other_password_matches_only_on_collision(password, other, salt);
}

/// Distinct salts give distinct stored hashes of one password.
pub proof fn lemma_salts_tell_hashes_apart(password: Seq<u8>, salt_a: Seq<u8>, salt_b: Seq<u8>)
    requires
        hashed(password, salt_a) is Some,
        hashed(password, salt_b) is Some,
        salt_a != salt_b,
    ensures
        hashed(password, salt_a) != hashed(password, salt_b),
{
    let a = hash_model(password, salt_a)->0;
    let b = hash_model(password, salt_b)->0;
    if encoding(a) == encoding(b) {
        lemma_encoding_injective(a, b);
    }
}

/// A text that is no stored hash matches no password.
pub proof fn lemma_malformed_never_matches(password: Seq<u8>, stored: Seq<u8>)
    requires
        decoding(stored) is None,
    ensures
        verified(password, stored) == VerifyOutcome::NoMatch,
{
}

} // verus!
