//! Telephone numbers.

use vstd::prelude::*;
use vstd::string::StringExecFns;

verus! {

/// Whether `validator::validate_phone` accepts `text`.
pub uninterp spec fn phone_is_valid(text: Seq<char>) -> bool;

/// `validator::validate_phone`: whether the text parses as a telephone number
/// that is valid for its region. The answer depends on the text alone.
#[verifier::external_body]
fn validate_phone(text: &str) -> (valid: bool)
    ensures
        valid == phone_is_valid(text@),
{
    validator::validate_phone(text)
}

/// A telephone number that has passed validation.
#[derive(Debug)]
pub struct Phone(String);

/// The telephone number that was refused, and why.
#[derive(Debug)]
pub struct InvalidPhone {
    message: String,
}

impl View for Phone {
    type V = Seq<char>;

    closed spec fn view(&self) -> Seq<char> {
        self.0@
    }
}

impl View for InvalidPhone {
    type V = Seq<char>;

    /// The message of the refusal.
    closed spec fn view(&self) -> Seq<char> {
        self.message@
    }
}

/// The message with which `text` is refused.
pub open spec fn refusal(text: Seq<char>) -> Seq<char> {
    text + " is not a valid subscriber email"@
}

impl InvalidPhone {
    /// The message of the refusal.
    pub fn to_string(&self) -> (message: String)
        ensures
            message@ == self@,
    {
        self.message.clone()
    }
}

impl Clone for Phone {
    fn clone(&self) -> (copy: Self)
        ensures
            copy@ == self@,
    {
        proof {
            use_type_invariant(self);
        }
        Phone(self.0.clone())
    }
}

impl Phone {
    #[verifier::type_invariant]
    closed spec fn inv(self) -> bool {
        phone_is_valid(self.0@)
    }

    /// Accepts `value` where it is a valid telephone number, and refuses it
    /// with a message that names it where it is not.
    pub fn parse(value: String) -> (result: Result<Phone, InvalidPhone>)
        ensures
            match result {
                Ok(phone) => phone_is_valid(value@) && phone@ == value@,
                Err(e) => !phone_is_valid(value@) && e@ == refusal(value@),
            },
    {
        if validate_phone(value.as_str()) {
            Ok(Phone(value))
        } else {
            Err(InvalidPhone { message: value.concat(" is not a valid subscriber email") })
        }
    }

    /// The number as text.
    pub fn as_ref(&self) -> (text: &str)
        ensures
            text@ == self@,
            phone_is_valid(self@),
    {
        proof {
            use_type_invariant(self);
        }
        self.0.as_str()
    }

    /// The number as an owned text.
    pub fn to_string(&self) -> (text: String)
        ensures
            text@ == self@,
    {
        self.0.clone()
    }
}

} // verus!
