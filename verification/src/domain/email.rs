//! E-mail addresses.

use vstd::prelude::*;
use vstd::string::StringExecFns;

verus! {

/// Whether `validator::validate_email` accepts `text`.
pub uninterp spec fn email_is_valid(text: Seq<char>) -> bool;

/// `validator::validate_email`: whether the text is a valid e-mail address.
/// The answer depends on the text alone; a text that is empty or holds no `@`
/// is not valid.
#[verifier::external_body]
fn validate_email(text: &str) -> (valid: bool)
    ensures
        valid == email_is_valid(text@),
        valid ==> text@.len() > 0 && text@.contains('@'),
{
    validator::validate_email(text)
}

/// An e-mail address that has passed validation.
#[derive(Debug)]
pub struct Email(String);

/// The e-mail address that was refused, and why.
#[derive(Debug)]
pub struct InvalidEmail {
    message: String,
}

impl View for Email {
    type V = Seq<char>;

    closed spec fn view(&self) -> Seq<char> {
        self.0@
    }
}

impl View for InvalidEmail {
    type V = Seq<char>;

    /// The message of the refusal.
    closed spec fn view(&self) -> Seq<char> {
        self.message@
    }
}

/// The message with which `text` is refused.
pub open spec fn refusal(text: Seq<char>) -> Seq<char> {
    text + " is not a valid subscriber email"@
}

impl InvalidEmail {
    /// The message of the refusal.
    pub fn to_string(&self) -> (message: String)
        ensures
            message@ == self@,
    {
        self.message.clone()
    }
}

impl Clone for Email {
    fn clone(&self) -> (copy: Self)
        ensures
            copy@ == self@,
    {
        proof {
            use_type_invariant(self);
        }
        Email(self.0.clone())
    }
}

impl Email {
    #[verifier::type_invariant]
    closed spec fn inv(self) -> bool {
        email_is_valid(self.0@)
    }

    /// Accepts `value` where it is a valid e-mail address, and refuses it with
    /// a message that names it where it is not.
    pub fn parse(value: String) -> (result: Result<Email, InvalidEmail>)
        ensures
            match result {
                Ok(email) => email_is_valid(value@) && email@ == value@,
                Err(e) => !email_is_valid(value@) && e@ == refusal(value@),
            },
            email_is_valid(value@) ==> value@.len() > 0 && value@.contains('@'),
    {
        if validate_email(value.as_str()) {
            Ok(Email(value))
        } else {
            Err(InvalidEmail { message: value.concat(" is not a valid subscriber email") })
        }
    }

    /// The address as text.
    pub fn as_ref(&self) -> (text: &str)
        ensures
            text@ == self@,
            email_is_valid(self@),
    {
        proof {
            use_type_invariant(self);
        }
        self.0.as_str()
    }

    /// The address as an owned text.
    pub fn to_string(&self) -> (text: String)
        ensures
            text@ == self@,
    {
        self.0.clone()
    }
}

} // verus!
