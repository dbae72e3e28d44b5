//! The outside functions that hashing rests on: the key-derivation function,
//! the source of random salts, and the comparison of keys in constant time.
//! Their contracts are stated here and are not proved.

use crate::authentication::codec::{cost_ok, Algorithm, Params, ParamsModel, Version};
use rand::RngCore;
use subtle::ConstantTimeEq;
use vstd::prelude::*;

verus! {

/// The key of `len` bytes that Argon2 derives from a password and a salt
/// under the given parameters, with no secret key and no associated data;
/// `None` where Argon2 refuses its input.
pub uninterp spec fn argon2_tag(
    params: ParamsModel,
    password: Seq<u8>,
    salt: Seq<u8>,
    len: nat,
) -> Option<Seq<u8>>;

/// Whether the working memory of the parameters, `m_cost` blocks of one KiB,
/// can be addressed on this machine.
pub open spec fn addressable(params: ParamsModel) -> bool {
    params.m_cost * 1024 <= isize::MAX
}

/// `argon2::Argon2::hash_password_into`, on a context made by
/// `argon2::Argon2::new` of the parameters that `argon2::Params::new` accepts:
/// the buffer of `len` bytes that the call filled, or `None` where one of the
/// calls returned an error. The outcome depends on the arguments alone.
#[verifier::external_body]
fn hash_password_into(
    algorithm: Algorithm,
    version: Version,
    m_cost: u32,
    t_cost: u32,
    p_cost: u32,
    password: &[u8],
    salt: &[u8],
    len: usize,
) -> (tag: Option<Vec<u8>>)
    requires
        cost_ok(m_cost, t_cost, p_cost),
        m_cost * 1024 <= isize::MAX,
        len <= isize::MAX,
    ensures
        match tag {
            Some(key) => argon2_tag(
                ParamsModel { algorithm, version, m_cost, t_cost, p_cost },
                password@,
                salt@,
                len as nat,
            ) == Some(key@) && key@.len() == len,
            None => argon2_tag(
                ParamsModel { algorithm, version, m_cost, t_cost, p_cost },
                password@,
                salt@,
                len as nat,
            ) is None,
        },
{
    let algorithm = match algorithm {
        Algorithm::Argon2d => argon2::Algorithm::Argon2d,
        Algorithm::Argon2i => argon2::Algorithm::Argon2i,
        Algorithm::Argon2id => argon2::Algorithm::Argon2id,
    };
    let version = match version {
        Version::V0x10 => argon2::Version::V0x10,
        Version::V0x13 => argon2::Version::V0x13,
    };
    let cost = argon2::Params::new(m_cost, t_cost, p_cost, None).ok()?;
    let mut key = vec![0u8; len];
    argon2::Argon2::new(algorithm, version, cost).hash_password_into(password, salt, &mut key).ok()?;
    Some(key)
}

/// Whether the working memory of `params` can be addressed on this machine.
pub fn is_addressable(params: &Params) -> (yes: bool)
    ensures
        yes == addressable(params@),
{
    params.m_cost() as u64 <= (isize::MAX as u64) / 1024
}

/// Derives the key of `len` bytes that `params` give for a password and a
/// salt; `None` where the key-derivation function refuses them.
pub fn derive_key(params: &Params, password: &[u8], salt: &[u8], len: usize) -> (tag: Option<
    Vec<u8>,
>)
    requires
        addressable(params@),
        len <= isize::MAX,
    ensures
        match tag {
            Some(key) => argon2_tag(params@, password@, salt@, len as nat) == Some(key@)
                && key@.len() == len,
            None => argon2_tag(params@, password@, salt@, len as nat) is None,
        },
{
    hash_password_into(
        params.algorithm(),
        params.version(),
        params.m_cost(),
        params.t_cost(),
        params.p_cost(),
        password,
        salt,
        len,
    )
}

/// `rand::RngCore::fill_bytes` on `rand::thread_rng()`: `len` bytes from the
/// thread's generator. Nothing is known of them but their number.
#[verifier::external_body]
pub(crate) fn random_bytes(len: usize) -> (bytes: Vec<u8>)
    requires
        len <= isize::MAX,
    ensures
        bytes@.len() == len,
{
    let mut bytes = vec![0u8; len];
    rand::thread_rng().fill_bytes(&mut bytes);
    bytes
}

/// `subtle::ConstantTimeEq::ct_eq` on byte slices: whether the two hold the
/// same bytes, found in time that depends on their lengths alone.
#[verifier::external_body]
pub(crate) fn constant_time_eq(a: &[u8], b: &[u8]) -> (equal: bool)
    ensures
        equal == (a@ == b@),
{
    a.ct_eq(b).into()
}

} // verus!
