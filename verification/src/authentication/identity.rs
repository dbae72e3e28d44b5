//! Account identifiers.

use vstd::prelude::*;

verus! {

/// The bits of an identifier that hold its version and variant.
pub const KIND_MASK: u128 = 0x0000_0000_0000_f000_c000_0000_0000_0000;

/// The version and variant bits of a random identifier: version 4, variant 1.
pub const RANDOM_KIND: u128 = 0x0000_0000_0000_4000_8000_0000_0000_0000;

/// Whether `value` has the version and variant bits of a random UUID.
pub open spec fn is_random_uuid(value: u128) -> bool {
    value & KIND_MASK == RANDOM_KIND
}

/// `uuid::Uuid::new_v4`, read by `uuid::Uuid::as_u128`: a random UUID as a
/// number. Whatever the random bits are, its version is 4 and its variant 1.
#[verifier::external_body]
fn new_v4() -> (value: u128)
    ensures
        is_random_uuid(value),
{
    uuid::Uuid::new_v4().as_u128()
}

/// The identifier of an account: a UUID, held as its 128 bits.
#[derive(Clone, Copy, Debug, PartialEq, Eq, Structural, Hash)]
pub struct Identity {
    value: u128,
}

impl View for Identity {
    type V = u128;

    closed spec fn view(&self) -> u128 {
        self.value
    }
}

impl Identity {
    /// The identifier with the given bits.
    pub fn from_u128(value: u128) -> (identity: Identity)
        ensures
            identity@ == value,
    {
        Identity { value }
    }

    /// The bits of the identifier.
    pub fn as_u128(&self) -> (value: u128)
        ensures
            value == self@,
    {
        self.value
    }

    /// A fresh random identifier.
    pub fn generate() -> (identity: Identity)
        ensures
            is_random_uuid(identity@),
    {
        Identity { value: new_v4() }
    }
}

/// An identifier that credential validation has returned: proof that the
/// account's password was presented. Only validation makes one.
#[derive(Clone, Copy, Debug, PartialEq, Eq, Structural)]
pub struct AuthenticatedIdentity {
    identity: Identity,
}

impl View for AuthenticatedIdentity {
    type V = Identity;

    closed spec fn view(&self) -> Identity {
        self.identity
    }
}

impl AuthenticatedIdentity {
    /// Marks `identity` as authenticated.
    pub(crate) fn new(identity: Identity) -> (authenticated: AuthenticatedIdentity)
        ensures
            authenticated@ == identity,
    {
        AuthenticatedIdentity { identity }
    }

    /// The identifier of the account.
    pub fn identity(&self) -> (identity: Identity)
        ensures
            identity == self@,
    {
        self.identity
    }
}

} // verus!
