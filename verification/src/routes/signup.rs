//! Signing up.

use crate::authentication::credentials::AuthError;
use crate::authentication::identity::Identity;
use crate::authentication::secret::PlaintextPassword;
use crate::authentication::user::NewUser;
use crate::domain::email::{email_is_valid, refusal, Email};
use crate::routes::login::{auth_failed_text, cause_text, logged_in_text, LoginOutcome};
use crate::routes::reply::{Reply, ReplyKey, BAD_REQUEST, OK};
use vstd::prelude::*;

pub use crate::routes::login::LoginError;

verus! {

/// The sign-up form.
pub struct FormData {
    pub email: String,
    pub password: PlaintextPassword,
    pub user_name: String,
    pub preferred_name: String,
    pub phone_number: String,
}

/// The new user that a form describes. A form whose address is not valid
/// describes none: `UnexpectedError`, with the refusal of the address as its
/// text. The other fields are taken as they are; in particular no length
/// policy is applied to the password of a new account.
pub fn new_user(form: FormData) -> (result: Result<NewUser, LoginError>)
    ensures
        match result {
            Ok(user) => email_is_valid(form.email@) && user.email@ == form.email@
                && user.password@ == form.password@ && user.user_name@ == form.user_name@
                && user.preferred_name@ == form.preferred_name@ && user.phone_number@
                == form.phone_number@,
            Err(e) => !email_is_valid(form.email@) && (e matches LoginError::UnexpectedError(text)
                && text@ == refusal(form.email@)),
        },
{
    match Email::parse(form.email) {
        Ok(email) => Ok(
            NewUser {
                user_name: form.user_name,
                preferred_name: form.preferred_name,
                email,
                phone_number: form.phone_number,
                password: form.password,
            },
        ),
        Err(e) => Err(LoginError::UnexpectedError(e.to_string())),
    }
}

/// What the creation of the account comes to: status 200, a message and a
/// session for the new account where it succeeded; status 400 and the shown
/// text of the error, and no session, where it failed.
pub fn conclude(creation: Result<Identity, AuthError>) -> (outcome: LoginOutcome)
    ensures
        match creation {
            Ok(user_id) => outcome.reply.is(OK, ReplyKey::Message, logged_in_text())
                && outcome.session_user == Some(user_id),
            Err(AuthError::InvalidCredentials) => outcome.reply.is(
                BAD_REQUEST,
                ReplyKey::Error,
                auth_failed_text(),
            ) && outcome.session_user is None,
            Err(AuthError::UnexpectedError) => outcome.reply.is(
                BAD_REQUEST,
                ReplyKey::Error,
                cause_text(AuthError::UnexpectedError),
            ) && outcome.session_user is None,
        },
{
    match creation {
        Ok(user_id) => LoginOutcome {
            reply: Reply::message("Successfully logged in"),
            session_user: Some(user_id),
        },
        Err(e) => LoginOutcome {
            reply: Reply::error(LoginError::from_auth_error(e).to_string()),
            session_user: None,
        },
    }
}

} // verus!
