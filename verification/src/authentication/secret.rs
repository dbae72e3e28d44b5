//! Passwords as they are typed: kept behind a wrapper that does not print
//! them and that wipes its memory when it is dropped.

use secrecy::ExposeSecret;
use vstd::prelude::*;

verus! {

/// A password as it was typed.
///
/// It holds a `secrecy::Secret<String>`, which has no `Debug` output of its
/// content and overwrites the text with zeros when it is dropped. Verus sees
/// nothing inside: what the password holds is known by `password_bytes` alone.
#[verifier::external_body]
pub struct PlaintextPassword {
    secret: secrecy::Secret<String>,
}

/// The bytes of the text that a password holds.
pub uninterp spec fn password_bytes(password: PlaintextPassword) -> Seq<u8>;

/// `secrecy::Secret::new`: the secret holds the text it was made of, so its
/// bytes are those of the text in UTF-8.
#[verifier::external_body]
fn seal(text: String) -> (password: PlaintextPassword)
    ensures
        password_bytes(password) == vstd::utf8::encode_utf8(text@),
{
    PlaintextPassword { secret: secrecy::Secret::new(text) }
}

/// `secrecy::ExposeSecret::expose_secret`: a reference to the text that the
/// secret holds, here as bytes.
#[verifier::external_body]
fn expose(password: &PlaintextPassword) -> (bytes: &[u8])
    ensures
        bytes@ == password_bytes(*password),
{
    password.secret.expose_secret().as_bytes()
}

impl View for PlaintextPassword {
    type V = Seq<u8>;

    /// The bytes of the password.
    open spec fn view(&self) -> Seq<u8> {
        password_bytes(*self)
    }
}

impl PlaintextPassword {
    /// The password that was typed as `text`.
    pub fn new(text: String) -> (password: PlaintextPassword)
        ensures
            password@ == vstd::utf8::encode_utf8(text@),
    {
        seal(text)
    }

    /// The bytes of the password.
    pub fn expose_bytes(&self) -> (bytes: &[u8])
        ensures
            bytes@ == self@,
    {
        expose(self)
    }

    /// The number of bytes in the password.
    pub fn len(&self) -> (n: usize)
        ensures
            n == self@.len(),
    {
        expose(self).len()
    }
}

} // verus!
