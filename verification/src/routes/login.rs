//! Logging in.

use crate::authentication::credentials::{AuthError, Credentials};
use crate::authentication::identity::{AuthenticatedIdentity, Identity};
use crate::authentication::secret::PlaintextPassword;
use crate::domain::email::{email_is_valid, refusal, Email};
use crate::routes::reply::{Reply, ReplyKey, BAD_REQUEST, INTERNAL_SERVER_ERROR, OK, UNAUTHORIZED};
use vstd::prelude::*;

verus! {

/// The login form.
pub struct FormData {
    pub email: String,
    pub password: PlaintextPassword,
}

/// Why a login failed.
#[derive(Debug)]
pub enum LoginError {
    /// The credentials were refused. The text is the cause, for the log.
    AuthError(String),
    /// Something else went wrong. The text says what.
    UnexpectedError(String),
}

/// What is shown for refused credentials, whatever the cause.
pub open spec fn auth_failed_text() -> Seq<char> {
    "Authentication failed"@
}

/// The cause that is logged for an error of validation.
pub open spec fn cause_text(e: AuthError) -> Seq<char> {
    match e {
        AuthError::InvalidCredentials => "Invalid credentials."@,
        AuthError::UnexpectedError => "Unexpected error."@,
    }
}

impl LoginError {
    /// The text that is shown for the error: the same for all refused
    /// credentials, the error's own text for anything else.
    pub open spec fn shown(self) -> Seq<char> {
        match self {
            LoginError::AuthError(_) => auth_failed_text(),
            LoginError::UnexpectedError(text) => text@,
        }
    }

    /// The status that answers the error: 401 for refused credentials, 500
    /// for anything else.
    pub open spec fn status(self) -> u16 {
        match self {
            LoginError::AuthError(_) => UNAUTHORIZED,
            LoginError::UnexpectedError(_) => INTERNAL_SERVER_ERROR,
        }
    }

    /// The login error that an error of validation becomes.
    pub fn from_auth_error(e: AuthError) -> (error: LoginError)
        ensures
            match e {
                AuthError::InvalidCredentials => (error matches LoginError::AuthError(cause)
                    && cause@ == cause_text(e)),
                AuthError::UnexpectedError => (error matches LoginError::UnexpectedError(cause)
                    && cause@ == cause_text(e)),
            },
    {
        match e {
            AuthError::InvalidCredentials => LoginError::AuthError("Invalid credentials.".to_owned()),
            AuthError::UnexpectedError => LoginError::UnexpectedError(
                "Unexpected error.".to_owned(),
            ),
        }
    }

    /// The text that is shown for the error.
    pub fn to_string(&self) -> (text: String)
        ensures
            text@ == self.shown(),
    {
        match self {
            LoginError::AuthError(_) => "Authentication failed".to_owned(),
            LoginError::UnexpectedError(text) => text.clone(),
        }
    }

    /// The status that answers the error.
    pub fn status_code(&self) -> (status: u16)
        ensures
            status == self.status(),
    {
        match self {
            LoginError::AuthError(_) => UNAUTHORIZED,
            LoginError::UnexpectedError(_) => INTERNAL_SERVER_ERROR,
        }
    }
}

/// The credentials that a form holds. A form whose address is not valid has
/// none: `UnexpectedError`, with the refusal of the address as its text.
pub fn credentials(form: FormData) -> (result: Result<Credentials, LoginError>)
    ensures
        match result {
            Ok(c) => email_is_valid(form.email@) && c.email@ == form.email@ && c.password@
                == form.password@,
            Err(e) => !email_is_valid(form.email@) && (e matches LoginError::UnexpectedError(text)
                && text@ == refusal(form.email@)),
        },
{
    match Email::parse(form.email) {
        Ok(email) => Ok(Credentials { email, password: form.password }),
        Err(e) => Err(LoginError::UnexpectedError(e.to_string())),
    }
}

/// What a login comes to.
pub struct LoginOutcome {
    /// The reply to the request.
    pub reply: Reply,
    /// The account that a renewed session is to hold, where the login
    /// succeeded.
    pub session_user: Option<Identity>,
}

/// The text of the reply to a successful login.
pub open spec fn logged_in_text() -> Seq<char> {
    "Successfully logged in"@
}

/// What the validation of the credentials comes to: status 200, a message
/// and a session for the account where it succeeded; status 400 and the
/// shown text of the error, and no session, where it failed.
pub fn conclude(validation: Result<AuthenticatedIdentity, AuthError>) -> (outcome: LoginOutcome)
    ensures
        match validation {
            Ok(authenticated) => outcome.reply.is(OK, ReplyKey::Message, logged_in_text())
                && outcome.session_user == Some(authenticated@),
            Err(AuthError::InvalidCredentials) => outcome.reply.is(
                BAD_REQUEST,
                ReplyKey::Error,
                auth_failed_text(),
            ) && outcome.session_user is None,
            Err(AuthError::UnexpectedError) => outcome.reply.is(
                BAD_REQUEST,
                ReplyKey::Error,
                cause_text(AuthError::UnexpectedError),
            ) && outcome.session_user is None,
        },
{
    match validation {
        Ok(authenticated) => LoginOutcome {
            reply: Reply::message("Successfully logged in"),
            session_user: Some(authenticated.identity()),
        },
        Err(e) => LoginOutcome {
            reply: Reply::error(LoginError::from_auth_error(e).to_string()),
            session_user: None,
        },
    }
}

} // verus!
