//! Changing one's password: the form, and what is replied at each turn of the
//! request.
//!
//! The request alternates with work outside: the account store is asked for
//! the user's address, the current password is validated, the new one is
//! hashed, and the new hash is stored. [`begin`] and [`step`] say what to do
//! next and what to reply in the end.

use crate::authentication::change::{
    check_new_password, violation, LengthPolicy, PasswordChangeError, PasswordUpdate,
    PolicyViolation, MAX_PASSWORD_LEN, MIN_PASSWORD_LEN,
};
use crate::authentication::credentials::{AuthError, Credentials};
use crate::authentication::identity::{AuthenticatedIdentity, Identity};
use crate::authentication::secret::PlaintextPassword;
use crate::authentication::user::StoreOutcome;
use crate::domain::email::{email_is_valid, Email};
use crate::routes::reply::{Reply, ReplyKey, BAD_REQUEST, OK};
use vstd::prelude::*;
use vstd::string::StringExecFns;

verus! {

/// The form with which a password is changed.
pub struct FormData {
    pub current_password: PlaintextPassword,
    pub new_password: PlaintextPassword,
    pub new_password_check: PlaintextPassword,
}

/// What is answered in the end.
#[derive(Debug)]
pub enum Response {
    /// A reply in JSON.
    Json(Reply),
    /// Status 500, without a word on what went wrong.
    InternalServerError,
}

/// Where a request stands.
pub enum ChangeState {
    /// The account store has been asked for the user's address.
    AwaitingEmail { user_id: Identity, form: FormData },
    /// The current password is being validated.
    AwaitingValidation {
        user_id: Identity,
        new_password: PlaintextPassword,
        new_password_check: PlaintextPassword,
    },
    /// The new password is being hashed.
    AwaitingHash,
    /// The new hash is being stored.
    AwaitingStore,
    /// The request is answered.
    Finished,
}

/// What happened outside.
pub enum ChangeEvent {
    /// The account store gave the user's address.
    EmailFound { email: String },
    /// The account store gave no address.
    EmailFailed,
    /// The validation of the current password ended.
    Validated { result: Result<AuthenticatedIdentity, AuthError> },
    /// The hashing of the new password ended.
    Hashed { hashing: Result<PasswordUpdate, PasswordChangeError> },
    /// The account store was told to overwrite the hash.
    Stored { outcome: StoreOutcome },
}

/// What is to be done next.
pub enum ChangeAction {
    /// Ask the account store for the address of this user.
    LookUpEmail { user_id: Identity },
    /// Validate these credentials.
    Validate { credentials: Credentials },
    /// Make the new hash of this user: `change_password`, off the request path.
    Hash {
        user_id: Identity,
        new_password: PlaintextPassword,
        new_password_check: PlaintextPassword,
    },
    /// Overwrite the stored hash.
    Store { update: PasswordUpdate },
    /// Answer the request.
    Finish { response: Response },
}

/// The text for a new password of the wrong length.
pub open spec fn length_text() -> Seq<char> {
    "The new password should be between 12 and 128 characters long."@
}

/// The text for a confirmation that differs.
pub open spec fn mismatch_text() -> Seq<char> {
    "You entered two different new passwords - the field values must match."@
}

/// The text for a current password that is not the account's.
pub open spec fn incorrect_text() -> Seq<char> {
    "The current password is incorrect."@
}

/// The text for a password that has been changed.
pub open spec fn changed_text() -> Seq<char> {
    "Your password has been changed"@
}

/// The text that tells the user what is wrong with the new password.
pub open spec fn violation_text(v: PolicyViolation) -> Seq<char> {
    match v {
        PolicyViolation::Length => length_text(),
        PolicyViolation::Mismatch => mismatch_text(),
    }
}

/// The policy of this form: 12 to 128 bytes.
pub open spec fn form_policy() -> LengthPolicy {
    LengthPolicy { min: MIN_PASSWORD_LEN, max: MAX_PASSWORD_LEN }
}

/// The reply that refuses a new password: status 400 and the text for what
/// is wrong.
pub fn refuse(v: PolicyViolation) -> (response: Response)
    ensures
        response matches Response::Json(reply) && reply.is(
            BAD_REQUEST,
            ReplyKey::Error,
            violation_text(v),
        ),
{
    match v {
        PolicyViolation::Length => Response::Json(
            Reply::error(
                "The new password should be between 12 and 128 characters long.".to_owned(),
            ),
        ),
        PolicyViolation::Mismatch => Response::Json(
            Reply::error(
                "You entered two different new passwords - the field values must match.".to_owned(),
            ),
        ),
    }
}

/// Whether `action` answers the request with status 400 and `text` as the
/// error.
pub open spec fn refuses_with(action: ChangeAction, text: Seq<char>) -> bool {
    action matches ChangeAction::Finish { response: Response::Json(reply) } && reply.is(
        BAD_REQUEST,
        ReplyKey::Error,
        text,
    )
}

/// Whether `action` answers the request with status 500.
pub open spec fn fails(action: ChangeAction) -> bool {
    action matches ChangeAction::Finish { response: Response::InternalServerError }
}

/// Begins a request. A new password of the wrong length, or one whose
/// confirmation differs, is refused at once, before anything is looked up;
/// otherwise the account store is to be asked for the user's address.
pub fn begin(user_id: Identity, form: FormData) -> (begun: (ChangeState, ChangeAction))
    ensures
        match violation(form.new_password@, form.new_password_check@, form_policy()) {
            Some(v) => begun.0 is Finished && refuses_with(begun.1, violation_text(v)),
            None => begun.0 == (ChangeState::AwaitingEmail { user_id, form }) && begun.1 == (
            ChangeAction::LookUpEmail { user_id }),
        },
{
    let policy = LengthPolicy::standard();
    match check_new_password(&form.new_password, &form.new_password_check, &policy) {
        Some(v) => (ChangeState::Finished, ChangeAction::Finish { response: refuse(v) }),
        None => (
            ChangeState::AwaitingEmail { user_id, form },
            ChangeAction::LookUpEmail { user_id },
        ),
    }
}

/// Ends a request with status 500.
fn fail() -> (ended: (ChangeState, ChangeAction))
    ensures
        ended.0 is Finished,
        fails(ended.1),
{
    (ChangeState::Finished, ChangeAction::Finish { response: Response::InternalServerError })
}

/// What follows an event, said of the state and action that `step` returns.
pub open spec fn follows(
    state: ChangeState,
    event: ChangeEvent,
    after: ChangeState,
    action: ChangeAction,
) -> bool {
    match (state, event) {
        (ChangeState::AwaitingEmail { user_id, form }, ChangeEvent::EmailFound { email }) => {
            if email_is_valid(email@) {
                &&& after matches ChangeState::AwaitingValidation {
                    user_id: id,
                    new_password,
                    new_password_check,
                }
                &&& id == user_id
                &&& new_password@ == form.new_password@
                &&& new_password_check@ == form.new_password_check@
                &&& action matches ChangeAction::Validate { credentials }
                &&& credentials.email@ == email@
                &&& credentials.password@ == form.current_password@
            } else {
                after is Finished && fails(action)
            }
        },
        (
            ChangeState::AwaitingValidation { user_id, new_password, new_password_check },
            ChangeEvent::Validated { result },
        ) => match result {
            Ok(_) => {
                &&& after is AwaitingHash
                &&& action matches ChangeAction::Hash {
                    user_id: id,
                    new_password: new,
                    new_password_check: check,
                }
                &&& id == user_id
                &&& new@ == new_password@
                &&& check@ == new_password_check@
            },
            Err(AuthError::InvalidCredentials) => after is Finished && refuses_with(
                action,
                incorrect_text(),
            ),
            Err(AuthError::UnexpectedError) => after is Finished && fails(action),
        },
        (ChangeState::AwaitingHash, ChangeEvent::Hashed { hashing }) => match hashing {
            Ok(update) => after is AwaitingStore && action == (ChangeAction::Store { update }),
            Err(PasswordChangeError::PolicyViolation(v)) => after is Finished && refuses_with(
                action,
                violation_text(v),
            ),
            Err(PasswordChangeError::Unexpected) => after is Finished && fails(action),
        },
        (ChangeState::AwaitingStore, ChangeEvent::Stored { outcome }) => match outcome {
            StoreOutcome::Stored => after is Finished && (action matches ChangeAction::Finish {
                response: Response::Json(reply),
            } && reply.is(OK, ReplyKey::Message, changed_text())),
            StoreOutcome::Failed => after is Finished && fails(action),
        },
        _ => after is Finished && fails(action),
    }
}

/// Takes a request one step on.
///
/// The address that the store gave goes, with the current password, into the
/// credentials to validate; an address that is not valid ends the request
/// with status 500. A current password that is refused ends it with status
/// 400; one that is accepted is followed by the hashing of the new password,
/// and that by the storing of the hash. Only a stored hash is answered with
/// status 200. A failure outside and an event out of turn end the request
/// with status 500.
pub fn step(state: ChangeState, event: ChangeEvent) -> (stepped: (ChangeState, ChangeAction))
    ensures
        follows(state, event, stepped.0, stepped.1),
{
    match (state, event) {
        (ChangeState::AwaitingEmail { user_id, form }, ChangeEvent::EmailFound { email }) => {
            match Email::parse(email) {
                Ok(email) => (
                    ChangeState::AwaitingValidation {
                        user_id,
                        new_password: form.new_password,
                        new_password_check: form.new_password_check,
                    },
                    ChangeAction::Validate {
                        credentials: Credentials { email, password: form.current_password },
                    },
                ),
                Err(_) => fail(),
            }
        },
        (
            ChangeState::AwaitingValidation { user_id, new_password, new_password_check },
            ChangeEvent::Validated { result },
        ) => match result {
            Ok(_) => (
                ChangeState::AwaitingHash,
                ChangeAction::Hash { user_id, new_password, new_password_check },
            ),
            Err(AuthError::InvalidCredentials) => (
                ChangeState::Finished,
                ChangeAction::Finish {
                    response: Response::Json(
                        Reply::error("The current password is incorrect.".to_owned()),
                    ),
                },
            ),
            Err(AuthError::UnexpectedError) => fail(),
        },
        (ChangeState::AwaitingHash, ChangeEvent::Hashed { hashing }) => match hashing {
            Ok(update) => (ChangeState::AwaitingStore, ChangeAction::Store { update }),
            Err(PasswordChangeError::PolicyViolation(v)) => (
                ChangeState::Finished,
                ChangeAction::Finish { response: refuse(v) },
            ),
            Err(PasswordChangeError::Unexpected) => fail(),
        },
        (ChangeState::AwaitingStore, ChangeEvent::Stored { outcome }) => match outcome {
            StoreOutcome::Stored => (
                ChangeState::Finished,
                ChangeAction::Finish {
                    response: Response::Json(Reply::message("Your password has been changed")),
                },
            ),
            StoreOutcome::Failed => fail(),
        },
        _ => fail(),
    }
}

/// How grave a notice to the user is.
#[derive(Clone, Copy, Debug, PartialEq, Eq, Structural)]
pub enum Level {
    Debug,
    Info,
    Success,
    Warning,
    Error,
}

/// A notice left for the user by an earlier request.
#[derive(Debug)]
pub struct FlashMessage {
    pub level: Level,
    pub text: String,
}

/// The page that is shown.
#[derive(Debug)]
pub enum Page {
    /// A redirect to this path.
    Redirect(String),
    /// Status 200 and this HTML.
    Html(String),
}

/// The lines of the page that show one error.
pub open spec fn error_line(text: Seq<char>) -> Seq<char> {
    "<p><strong>Error</strong>: <i>"@ + text + "</i></p>\n\n"@
}

/// The lines of the page that show the errors among `flashes`, in their
/// order; notices of other levels are left out.
pub open spec fn error_lines(flashes: Seq<FlashMessage>) -> Seq<char>
    decreases flashes.len(),
{
    if flashes.len() == 0 {
        Seq::empty()
    } else if flashes.last().level == Level::Error {
        error_lines(flashes.drop_last()) + error_line(flashes.last().text@)
    } else {
        error_lines(flashes.drop_last())
    }
}

/// The page before the errors.
pub open spec fn page_head() -> Seq<char> {
    "<!DOCTYPE html>\n<html lang=\"en\">\n<head>\n    <meta http-equiv=\"content-type\" content=\"text/html; charset=utf-8\">\n    <title>Change Password</title>\n</head>\n<body>\n    "@
}

/// The page after the errors: the form.
pub open spec fn page_form() -> Seq<char> {
    "\n    <form action=\"/admin/password\" method=\"post\">\n        <label>Current password\n            <input type=\"password\" placeholder=\"Enter current password\" name=\"current_password\">\n        </label>\n        <br>\n        <label>New password\n            <input type=\"password\" placeholder=\"New password\" name=\"new_password\">\n        </label>\n        <br>\n        <label>\n            <input type=\"password\" placeholder=\"Type the new password again\" name=\"new_password_check\">\n        </label>\n        <br>\n        <button type=\"submit\">Change password</button>\n    </form>\n</body>\n</html>"@
}

/// The page with the form: a redirect to the login page for a user who is not
/// logged in, else the form under the errors that earlier requests left.
pub fn change_password_form(logged_in: bool, flashes: &Vec<FlashMessage>) -> (page: Page)
    ensures
        match page {
            Page::Redirect(path) => !logged_in && path@ == "/login"@,
            Page::Html(body) => logged_in && body@ == page_head() + error_lines(flashes@)
                + page_form(),
        },
{
    if !logged_in {
        return Page::Redirect("/login".to_owned());
    }
    let mut lines = String::new();
    let mut i: usize = 0;
    proof {
        assert(flashes@.take(0) =~= Seq::empty());
    }
    while i < flashes.len()
        invariant
            i <= flashes.len(),
            lines@ == error_lines(flashes@.take(i as int)),
        decreases flashes.len() - i,
    {
        proof {
            assert(flashes@.take(i + 1).drop_last() =~= flashes@.take(i as int));
        }
        if flashes[i].level == Level::Error {
            lines.append("<p><strong>Error</strong>: <i>");
            lines.append(flashes[i].text.as_str());
            lines.append("</i></p>\n\n");
            proof {
                assert(lines@ =~= error_lines(flashes@.take(i as int)) + error_line(
                    flashes@[i as int].text@,
                ));
            }
        }
        i = i + 1;
    }
    proof {
        assert(flashes@.take(i as int) =~= flashes@);
    }
    let mut body =
        "<!DOCTYPE html>\n<html lang=\"en\">\n<head>\n    <meta http-equiv=\"content-type\" content=\"text/html; charset=utf-8\">\n    <title>Change Password</title>\n</head>\n<body>\n    ".to_owned();
    body.append(lines.as_str());
    body.append(
        "\n    <form action=\"/admin/password\" method=\"post\">\n        <label>Current password\n            <input type=\"password\" placeholder=\"Enter current password\" name=\"current_password\">\n        </label>\n        <br>\n        <label>New password\n            <input type=\"password\" placeholder=\"New password\" name=\"new_password\">\n        </label>\n        <br>\n        <label>\n            <input type=\"password\" placeholder=\"Type the new password again\" name=\"new_password_check\">\n        </label>\n        <br>\n        <button type=\"submit\">Change password</button>\n    </form>\n</body>\n</html>",
    );
    Page::Html(body)
}

} // verus!
