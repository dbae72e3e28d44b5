//! Publishing a newsletter issue to the confirmed subscribers.

use crate::domain::email::{email_is_valid, refusal, Email, InvalidEmail};
use crate::routes::reply::{INTERNAL_SERVER_ERROR, UNAUTHORIZED, UNPROCESSABLE_ENTITY};
use vstd::prelude::*;
use vstd::string::StringExecFns;

verus! {

/// A newsletter issue as the form holds it.
#[derive(Debug)]
pub struct BodyData {
    pub title: String,
    pub html_content: String,
    pub text_content: String,
}

/// Why an issue was not published.
#[derive(Debug)]
pub enum PublishError {
    /// The user is not allowed to publish. The text is the cause, for the log.
    AuthError(String),
    /// Something else went wrong. The text says what.
    UnexpectedError(String),
    /// The form could not be read. The text says why.
    FormExtractionError(String),
}

/// The status that answers an error, and the challenge that goes with a
/// refusal.
#[derive(Debug)]
pub struct ErrorResponse {
    pub status: u16,
    pub www_authenticate: Option<String>,
}

/// The challenge sent with status 401.
pub open spec fn challenge_text() -> Seq<char> {
    "Basic realm=\"publish\""@
}

impl PublishError {
    /// The text that is shown for the error: the same for every refusal, the
    /// error's own text for anything else.
    pub open spec fn shown(self) -> Seq<char> {
        match self {
            PublishError::AuthError(_) => "Authentication failed"@,
            PublishError::UnexpectedError(text) => text@,
            PublishError::FormExtractionError(text) => text@,
        }
    }

    /// The text that is shown for the error.
    pub fn to_string(&self) -> (text: String)
        ensures
            text@ == self.shown(),
    {
        match self {
            PublishError::AuthError(_) => "Authentication failed".to_owned(),
            PublishError::UnexpectedError(text) => text.clone(),
            PublishError::FormExtractionError(text) => text.clone(),
        }
    }

    /// The response to the error: 401 with a challenge for a refusal, 500 for
    /// an unexpected error, 422 for a form that could not be read.
    pub fn response(&self) -> (response: ErrorResponse)
        ensures
            match self {
                PublishError::AuthError(_) => response.status == UNAUTHORIZED && (
                response.www_authenticate matches Some(text) && text@ == challenge_text()),
                PublishError::UnexpectedError(_) => response.status == INTERNAL_SERVER_ERROR
                    && response.www_authenticate is None,
                PublishError::FormExtractionError(_) => response.status == UNPROCESSABLE_ENTITY
                    && response.www_authenticate is None,
            },
    {
        match self {
            PublishError::AuthError(_) => ErrorResponse {
                status: UNAUTHORIZED,
                www_authenticate: Some("Basic realm=\"publish\"".to_owned()),
            },
            PublishError::UnexpectedError(_) => ErrorResponse {
                status: INTERNAL_SERVER_ERROR,
                www_authenticate: None,
            },
            PublishError::FormExtractionError(_) => ErrorResponse {
                status: UNPROCESSABLE_ENTITY,
                www_authenticate: None,
            },
        }
    }
}

/// A subscriber who has confirmed the subscription.
#[derive(Debug)]
pub struct ConfirmedSubscriber {
    pub email: Email,
}

/// Whether `subscriber` is what the stored address `row` is read as: the
/// subscriber with that address where it is valid, its refusal where not.
pub open spec fn read_as(row: Seq<char>, subscriber: Result<ConfirmedSubscriber, InvalidEmail>) -> bool {
    match subscriber {
        Ok(s) => email_is_valid(row) && s.email@ == row,
        Err(e) => !email_is_valid(row) && e@ == refusal(row),
    }
}

/// Reads the stored addresses of the confirmed subscribers, each on its own:
/// one that is not valid does not keep the others from being read.
pub fn confirmed_subscribers(rows: Vec<String>) -> (subscribers: Vec<
    Result<ConfirmedSubscriber, InvalidEmail>,
>)
    ensures
        subscribers.len() == rows.len(),
        forall|i: int| 0 <= i < rows.len() ==> read_as(rows[i]@, #[trigger] subscribers[i]),
{
    let mut subscribers: Vec<Result<ConfirmedSubscriber, InvalidEmail>> = Vec::new();
    let mut i: usize = 0;
    while i < rows.len()
        invariant
            i <= rows.len(),
            subscribers.len() == i,
            forall|k: int| 0 <= k < i ==> read_as(rows[k]@, #[trigger] subscribers[k]),
        decreases rows.len() - i,
    {
        let subscriber = match Email::parse(rows[i].clone()) {
            Ok(email) => Ok(ConfirmedSubscriber { email }),
            Err(e) => Err(e),
        };
        subscribers.push(subscriber);
        i = i + 1;
    }
    subscribers
}

/// How grave a notice to the user is.
#[derive(Clone, Copy, Debug, PartialEq, Eq, Structural)]
pub enum NoticeLevel {
    Info,
    Error,
}

/// A notice for the user's next page, and the path to send the user to.
#[derive(Debug)]
pub struct Notice {
    pub level: NoticeLevel,
    pub text: String,
    pub redirect: String,
}

/// The path of the page on which issues are written.
pub open spec fn newsletters_path() -> Seq<char> {
    "/admin/newsletters"@
}

/// The notice for a form that was not filled out.
pub open spec fn incomplete_text() -> Seq<char> {
    "Part of the form is not filled out"@
}

/// The notice for an issue that went out.
pub open spec fn published_text() -> Seq<char> {
    "The newsletter issue has been published"@
}

/// The text of the error for an issue that could not be sent to `email`.
pub open spec fn undelivered_text(email: Seq<char>) -> Seq<char> {
    "Failed to send newsletter issue to "@ + email + ","@
}

/// The text of the error for an event that does not belong to the state.
pub open spec fn out_of_turn_text() -> Seq<char> {
    "An event came out of turn"@
}

/// Where the publishing of an issue stands.
pub enum PublishState {
    /// The store has been asked for the confirmed subscribers.
    AwaitingSubscribers,
    /// The issue is on its way to the subscriber at `position`.
    Sending { subscribers: Vec<Result<ConfirmedSubscriber, InvalidEmail>>, position: usize },
    /// The request is answered.
    Finished,
}

/// What happened outside.
pub enum PublishEvent {
    /// The store gave the addresses of the confirmed subscribers.
    Subscribers { rows: Vec<String> },
    /// The store gave no addresses. The text says why.
    SubscribersFailed { cause: String },
    /// The issue was handed to the mail service.
    Sent,
    /// The mail service did not take the issue.
    SendFailed,
}

/// What is to be done next.
pub enum PublishAction {
    /// Ask the store for the addresses of the confirmed subscribers.
    FetchSubscribers,
    /// Send the issue to this address.
    Send { to: Email },
    /// Answer the request: a notice and a redirect, or an error.
    Finish { outcome: Result<Notice, PublishError> },
}

/// The place, from `from` on, of the first subscriber whose address is
/// valid; the number of subscribers where there is none.
pub open spec fn next_valid(
    subscribers: Seq<Result<ConfirmedSubscriber, InvalidEmail>>,
    from: int,
) -> int
    decreases subscribers.len() - from,
{
    if from >= subscribers.len() {
        subscribers.len() as int
    } else if subscribers[from] is Ok {
        from
    } else {
        next_valid(subscribers, from + 1)
    }
}

/// Whether `action` ends the request with this notice and a redirect to the
/// page of the newsletters.
pub open spec fn notifies(action: PublishAction, level: NoticeLevel, text: Seq<char>) -> bool {
    action matches PublishAction::Finish { outcome: Ok(notice) } && notice.level == level
        && notice.text@ == text && notice.redirect@ == newsletters_path()
}

/// Whether `action` ends the request with an unexpected error of this text.
pub open spec fn breaks_with(action: PublishAction, text: Seq<char>) -> bool {
    action matches PublishAction::Finish { outcome: Err(PublishError::UnexpectedError(t)) } && t@
        == text
}

/// Whether state and action are those of an issue that goes to the
/// subscriber at `position` next, or that has gone to all of them.
pub open spec fn sends_from(
    subscribers: Seq<Result<ConfirmedSubscriber, InvalidEmail>>,
    position: int,
    after: PublishState,
    action: PublishAction,
) -> bool {
    if position < subscribers.len() {
        &&& after matches PublishState::Sending { subscribers: s, position: p }
        &&& s@ == subscribers
        &&& p == position
        &&& action matches PublishAction::Send { to }
        &&& subscribers[position] matches Ok(subscriber)
        &&& to@ == subscriber.email@
    } else {
        after is Finished && notifies(action, NoticeLevel::Info, published_text())
    }
}

/// Begins the publishing of an issue. A form that could not be read is
/// answered at once with a notice; for any other the store is to be asked
/// for the subscribers.
pub fn begin(form_is_complete: bool) -> (begun: (PublishState, PublishAction))
    ensures
        form_is_complete ==> begun.0 is AwaitingSubscribers && begun.1 is FetchSubscribers,
        !form_is_complete ==> begun.0 is Finished && notifies(
            begun.1,
            NoticeLevel::Error,
            incomplete_text(),
        ),
{
    if form_is_complete {
        (PublishState::AwaitingSubscribers, PublishAction::FetchSubscribers)
    } else {
        (
            PublishState::Finished,
            PublishAction::Finish {
                outcome: Ok(
                    Notice {
                        level: NoticeLevel::Error,
                        text: "Part of the form is not filled out".to_owned(),
                        redirect: "/admin/newsletters".to_owned(),
                    },
                ),
            },
        )
    }
}

/// Goes on with the first valid subscriber from `from` on, or ends the
/// request where there is none.
fn send_from(subscribers: Vec<Result<ConfirmedSubscriber, InvalidEmail>>, from: usize) -> (stepped: (
    PublishState,
    PublishAction,
))
    requires
        from <= subscribers.len(),
    ensures
        sends_from(subscribers@, next_valid(subscribers@, from as int), stepped.0, stepped.1),
{
    let mut position: usize = from;
    while position < subscribers.len()
        invariant
            from <= position <= subscribers.len(),
            next_valid(subscribers@, position as int) == next_valid(subscribers@, from as int),
        decreases subscribers.len() - position,
    {
        if let Ok(subscriber) = &subscribers[position] {
            let to = subscriber.email.clone();
            return (PublishState::Sending { subscribers, position }, PublishAction::Send { to });
        }
        position = position + 1;
    }
    (
        PublishState::Finished,
        PublishAction::Finish {
            outcome: Ok(
                Notice {
                    level: NoticeLevel::Info,
                    text: "The newsletter issue has been published".to_owned(),
                    redirect: "/admin/newsletters".to_owned(),
                },
            ),
        },
    )
}

/// Ends the request for an event that does not belong to the state.
fn out_of_turn() -> (ended: (PublishState, PublishAction))
    ensures
        ended.0 is Finished,
        breaks_with(ended.1, out_of_turn_text()),
{
    (
        PublishState::Finished,
        PublishAction::Finish {
            outcome: Err(PublishError::UnexpectedError("An event came out of turn".to_owned())),
        },
    )
}

/// What follows an event, said of the state and action that `step` returns.
pub open spec fn follows(
    state: PublishState,
    event: PublishEvent,
    after: PublishState,
    action: PublishAction,
) -> bool {
    match (state, event) {
        (PublishState::AwaitingSubscribers, PublishEvent::Subscribers { rows }) => {
            exists|subscribers: Seq<Result<ConfirmedSubscriber, InvalidEmail>>|
                {
                    &&& subscribers.len() == rows.len()
                    &&& forall|i: int|
                        0 <= i < rows.len() ==> read_as(rows[i]@, #[trigger] subscribers[i])
                    &&& sends_from(subscribers, next_valid(subscribers, 0), after, action)
                }
        },
        (PublishState::AwaitingSubscribers, PublishEvent::SubscribersFailed { cause }) => after
            is Finished && breaks_with(action, cause@),
        (PublishState::Sending { subscribers, position }, PublishEvent::Sent) => if position
            < subscribers.len() {
            sends_from(subscribers@, next_valid(subscribers@, position + 1), after, action)
        } else {
            after is Finished && breaks_with(action, out_of_turn_text())
        },
        (PublishState::Sending { subscribers, position }, PublishEvent::SendFailed) => after
            is Finished && if position < subscribers.len() && subscribers[position as int] is Ok {
            breaks_with(action, undelivered_text(subscribers[position as int]->Ok_0.email@))
        } else {
            breaks_with(action, out_of_turn_text())
        },
        _ => after is Finished && breaks_with(action, out_of_turn_text()),
    }
}

/// Takes the publishing one step on.
///
/// The issue goes to the subscribers with a valid address, one after the
/// other in the order of the store; those whose address is not valid are
/// passed over. A send that fails ends the request with an error that names
/// the address; when the last send is done the request ends with a notice.
pub fn step(state: PublishState, event: PublishEvent) -> (stepped: (PublishState, PublishAction))
    ensures
        follows(state, event, stepped.0, stepped.1),
{
    match (state, event) {
        (PublishState::AwaitingSubscribers, PublishEvent::Subscribers { rows }) => {
            let subscribers = confirmed_subscribers(rows);
            let ghost read = subscribers@;
            let stepped = send_from(subscribers, 0);
            proof {
                assert(sends_from(read, next_valid(read, 0), stepped.0, stepped.1));
            }
            stepped
        },
        (PublishState::AwaitingSubscribers, PublishEvent::SubscribersFailed { cause }) => (
            PublishState::Finished,
            PublishAction::Finish { outcome: Err(PublishError::UnexpectedError(cause)) },
        ),
        (PublishState::Sending { subscribers, position }, PublishEvent::Sent) => {
            if position < subscribers.len() {
                send_from(subscribers, position + 1)
            } else {
                out_of_turn()
            }
        },
        (PublishState::Sending { subscribers, position }, PublishEvent::SendFailed) => {
            if position < subscribers.len() {
                if let Ok(subscriber) = &subscribers[position] {
                    let mut text = "Failed to send newsletter issue to ".to_owned();
                    text.append(subscriber.email.as_ref());
                    text.append(",");
                    return (
                        PublishState::Finished,
                        PublishAction::Finish { outcome: Err(PublishError::UnexpectedError(text)) },
                    );
                }
            }
            out_of_turn()
        },
        (_, _) => out_of_turn(),
    }
}

} // verus!
