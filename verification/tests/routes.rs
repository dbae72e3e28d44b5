use uuid::Uuid;
use zero2prod::authentication::change::{change_password, LengthPolicy, PasswordChangeError, PolicyViolation};
use zero2prod::authentication::credentials::{validate_credentials, AuthError, FallbackHash, Lookup};
use zero2prod::authentication::identity::Identity;
use zero2prod::authentication::password::{compute_password_hash, verify_password_hash, VerifyOutcome};
use zero2prod::authentication::user::{create_user, created, StoreOutcome};
use zero2prod::authentication::{PlaintextPassword, StoredPasswordHash};
use zero2prod::routes::admin::newsletters;
use zero2prod::routes::admin::newsletters::{BodyData, NoticeLevel, PublishAction, PublishError, PublishEvent, PublishState};
use zero2prod::routes::admin::password;
use zero2prod::routes::admin::password::{
    change_password_form, ChangeAction, ChangeEvent, ChangeState, FlashMessage, Level, Page, Response,
};
use zero2prod::routes::login;
use zero2prod::routes::login::LoginError;
use zero2prod::routes::reply::{Reply, ReplyKey};
use zero2prod::routes::signup;
use zero2prod::telemetry::{report_exit, Failure};

fn secret(text: &str) -> PlaintextPassword {
    PlaintextPassword::new(text.to_string())
}

fn fallback() -> FallbackHash {
    FallbackHash::generate(&secret("nobody has this password")).ok().expect("a fallback hash")
}

/// The one user of the tests, as the account store holds it.
struct TestUser {
    user_id: Identity,
    email: String,
    password: String,
    password_hash: StoredPasswordHash,
}

impl TestUser {
    fn generate() -> TestUser {
        let password = Uuid::new_v4().to_string();
        let password_hash = compute_password_hash(&secret(&password)).expect("a hash");
        TestUser {
            user_id: Identity::from_u128(Uuid::new_v4().as_u128()),
            email: "ursula@domain.com".to_string(),
            password,
            password_hash,
        }
    }

    fn lookup(&self, email: &str) -> Lookup {
        if email == self.email {
            Lookup::Found { identity: self.user_id, password_hash: self.password_hash.clone() }
        } else {
            Lookup::Missing
        }
    }

    /// A login request, from the form to the reply.
    fn post_login(&self, email: &str, password: &str) -> login::LoginOutcome {
        let form = login::FormData { email: email.to_string(), password: secret(password) };
        let credentials = login::credentials(form).ok().expect("a valid address");
        let lookup = self.lookup(credentials.email.as_ref());
        login::conclude(validate_credentials(credentials, lookup, &fallback()))
    }

    /// A request to change the password, from the form to the response.
    fn post_change_password(&mut self, current: &str, new: &str, check: &str) -> Response {
        let form = password::FormData {
            current_password: secret(current),
            new_password: secret(new),
            new_password_check: secret(check),
        };
        let (mut state, mut action) = password::begin(self.user_id, form);
        loop {
            let event = match action {
                ChangeAction::LookUpEmail { user_id } => {
                    assert_eq!(user_id, self.user_id);
                    ChangeEvent::EmailFound { email: self.email.clone() }
                }
                ChangeAction::Validate { credentials } => {
                    let lookup = self.lookup(credentials.email.as_ref());
                    ChangeEvent::Validated { result: validate_credentials(credentials, lookup, &fallback()) }
                }
                ChangeAction::Hash { user_id, new_password, new_password_check } => ChangeEvent::Hashed {
                    hashing: change_password(user_id, &new_password, &new_password_check, &LengthPolicy::standard()),
                },
                ChangeAction::Store { update } => {
                    assert_eq!(update.user_id, self.user_id);
                    self.password_hash = update.password_hash;
                    ChangeEvent::Stored { outcome: StoreOutcome::Stored }
                }
                ChangeAction::Finish { response } => {
                    assert!(matches!(state, ChangeState::Finished));
                    return response;
                }
            };
            let stepped = password::step(state, event);
            state = stepped.0;
            action = stepped.1;
        }
    }
}

fn json(response: Response) -> Reply {
    match response {
        Response::Json(reply) => reply,
        Response::InternalServerError => panic!("status 500"),
    }
}

#[test]
fn you_must_be_logged_in_to_see_the_change_password_form() {
    match change_password_form(false, &Vec::new()) {
        Page::Redirect(path) => assert_eq!(path, "/login"),
        Page::Html(_) => panic!("the form was shown"),
    }
}

#[test]
fn new_password_fields_must_match() {
    let mut user = TestUser::generate();
    let new_password = Uuid::new_v4().to_string();
    let another_new_password = Uuid::new_v4().to_string();

    let login = user.post_login(&user.email, &user.password);
    assert_eq!(login.reply.status, 200);

    let current = user.password.clone();
    let reply = json(user.post_change_password(&current, &new_password, &another_new_password));
    assert_eq!(reply.status, 400);
    assert_eq!(reply.key, ReplyKey::Error);
    assert_eq!(reply.text, "You entered two different new passwords - the field values must match.");
}

#[test]
fn current_password_must_be_valid() {
    let mut user = TestUser::generate();
    let new_password = Uuid::new_v4().to_string();
    let wrong_password = Uuid::new_v4().to_string();

    user.post_login(&user.email, &user.password);

    let reply = json(user.post_change_password(&wrong_password, &new_password, &new_password));
    assert_eq!(reply.status, 400);
    assert_eq!(reply.key, ReplyKey::Error);
    assert_eq!(reply.text, "The current password is incorrect.");
    assert_eq!(verify_password_hash(&secret(&user.password), &user.password_hash), VerifyOutcome::Match);
}

#[test]
fn new_password_must_be_correct_length() {
    let mut user = TestUser::generate();

    let test_cases = vec![
        "99ds09a",
        "0123456789abcdef0123456789abcdef0123456789abcdef0123456789abcdef0123456789abcdef0123456789abcdef0123456789abcdef0123456789abcdefd"
    ];

    for case in test_cases {
        user.post_login(&user.email, &user.password);

        let current = user.password.clone();
        let reply = json(user.post_change_password(&current, case, case));
        assert_eq!(reply.status, 400);
        assert_eq!(reply.key, ReplyKey::Error);
        assert_eq!(reply.text, "The new password should be between 12 and 128 characters long.");
    }
}

#[test]
fn changing_password_works() {
    let mut user = TestUser::generate();
    let new_password = Uuid::new_v4().to_string();

    user.post_login(&user.email, &user.password);

    let current = user.password.clone();
    let reply = json(user.post_change_password(&current, &new_password, &new_password));
    assert_eq!(reply.status, 200);
    assert_eq!(reply.key, ReplyKey::Message);
    assert_eq!(reply.text, "Your password has been changed");

    let login = user.post_login(&user.email, &new_password);
    assert_eq!(login.reply.status, 200);
    let login = user.post_login(&user.email, &current);
    assert_eq!(login.reply.status, 400);
}

#[test]
fn an_error_message_is_returned_on_error() {
    let user = TestUser::generate();
    let outcome = user.post_login("random-username@gmail.com", "random-password");
    assert_eq!(outcome.reply.key, ReplyKey::Error);
    assert_eq!(outcome.reply.text, "Authentication failed");
    assert_eq!(outcome.reply.status, 400);
    assert_eq!(outcome.session_user, None);
    let outcome = user.post_login(&user.email, "random-password");
    assert_eq!(outcome.reply.key, ReplyKey::Error);
    assert_eq!(outcome.reply.text, "Authentication failed");
    assert_eq!(outcome.reply.status, 400);
    assert_eq!(outcome.session_user, None);
}

#[test]
fn message_on_success() {
    let user = TestUser::generate();
    let outcome = user.post_login(&user.email, &user.password);
    assert_eq!(outcome.reply.status, 200);
    assert_eq!(outcome.reply.key, ReplyKey::Message);
    assert_eq!(outcome.reply.text, "Successfully logged in");
    assert_eq!(outcome.session_user, Some(user.user_id));
}

#[test]
fn a_login_form_with_a_bad_address_holds_no_credentials() {
    let form = login::FormData { email: "ursuladomain.com".to_string(), password: secret("CorrectHorse1") };
    match login::credentials(form) {
        Ok(_) => panic!("the address was accepted"),
        Err(e) => {
            assert!(matches!(e, LoginError::UnexpectedError(_)));
            assert_eq!(e.to_string(), "ursuladomain.com is not a valid subscriber email");
            assert_eq!(e.status_code(), 500);
        }
    }
    let form = login::FormData { email: "ursula@domain.com".to_string(), password: secret("CorrectHorse1") };
    let credentials = login::credentials(form).ok().expect("credentials");
    assert_eq!(credentials.email.as_ref(), "ursula@domain.com");
    assert_eq!(credentials.password.expose_bytes(), b"CorrectHorse1");
}

#[test]
fn login_errors_are_shown_and_answered_by_kind() {
    let refused = LoginError::from_auth_error(AuthError::InvalidCredentials);
    assert!(matches!(&refused, LoginError::AuthError(cause) if cause == "Invalid credentials."));
    assert_eq!(refused.to_string(), "Authentication failed");
    assert_eq!(refused.status_code(), 401);
    let unexpected = LoginError::from_auth_error(AuthError::UnexpectedError);
    assert!(matches!(&unexpected, LoginError::UnexpectedError(cause) if cause == "Unexpected error."));
    assert_eq!(unexpected.to_string(), "Unexpected error.");
    assert_eq!(unexpected.status_code(), 500);
    let outcome = login::conclude(Err(AuthError::UnexpectedError));
    assert_eq!(outcome.reply.status, 400);
    assert_eq!(outcome.reply.key, ReplyKey::Error);
    assert_eq!(outcome.reply.text, "Unexpected error.");
    assert_eq!(outcome.session_user, None);
}

#[test]
fn signing_up_creates_an_account_and_logs_in() {
    let form = signup::FormData {
        email: "ursula@domain.com".to_string(),
        password: secret("CorrectHorse1"),
        user_name: "test_user".to_string(),
        preferred_name: "user_1".to_string(),
        phone_number: "+14152370800".to_string(),
    };
    let new_user = signup::new_user(form).ok().expect("a new user");
    assert_eq!(new_user.email.as_ref(), "ursula@domain.com");
    assert_eq!(new_user.user_name, "test_user");
    assert_eq!(new_user.preferred_name, "user_1");
    assert_eq!(new_user.phone_number, "+14152370800");
    assert_eq!(new_user.password.expose_bytes(), b"CorrectHorse1");
    let account = create_user(new_user).ok().expect("an account");
    let outcome = signup::conclude(created(&account, StoreOutcome::Stored));
    assert_eq!(outcome.reply.status, 200);
    assert_eq!(outcome.reply.key, ReplyKey::Message);
    assert_eq!(outcome.reply.text, "Successfully logged in");
    assert_eq!(outcome.session_user, Some(account.user_id));

    let outcome = signup::conclude(created(&account, StoreOutcome::Failed));
    assert_eq!(outcome.reply.status, 400);
    assert_eq!(outcome.reply.key, ReplyKey::Error);
    assert_eq!(outcome.reply.text, "Unexpected error.");
    assert_eq!(outcome.session_user, None);
    let outcome = signup::conclude(Err(AuthError::InvalidCredentials));
    assert_eq!(outcome.reply.text, "Authentication failed");
}

#[test]
fn a_signup_form_with_a_bad_address_describes_no_user() {
    let form = signup::FormData {
        email: "@domain.com".to_string(),
        password: secret("CorrectHorse1"),
        user_name: "test_user".to_string(),
        preferred_name: "user_1".to_string(),
        phone_number: "not checked".to_string(),
    };
    match signup::new_user(form) {
        Ok(_) => panic!("the address was accepted"),
        Err(e) => {
            assert!(matches!(e, signup::LoginError::UnexpectedError(_)));
            assert_eq!(e.to_string(), "@domain.com is not a valid subscriber email");
        }
    }
}

#[test]
fn failures_while_changing_a_password_give_status_500() {
    let user = Identity::from_u128(9);
    let form = || password::FormData {
        current_password: secret("CorrectHorse1"),
        new_password: secret("NewHorseBattery2"),
        new_password_check: secret("NewHorseBattery2"),
    };
    let failed = |action: &ChangeAction| {
        matches!(action, ChangeAction::Finish { response: Response::InternalServerError })
    };

    let (state, _) = password::begin(user, form());
    let (state, action) = password::step(state, ChangeEvent::EmailFailed);
    assert!(matches!(state, ChangeState::Finished) && failed(&action));

    let (state, _) = password::begin(user, form());
    let (_, action) = password::step(state, ChangeEvent::EmailFound { email: "no address".to_string() });
    assert!(failed(&action));

    let (state, _) = password::begin(user, form());
    let (state, action) = password::step(state, ChangeEvent::EmailFound { email: "ursula@domain.com".to_string() });
    match action {
        ChangeAction::Validate { credentials } => {
            assert_eq!(credentials.email.as_ref(), "ursula@domain.com");
            assert_eq!(credentials.password.expose_bytes(), b"CorrectHorse1");
        }
        _ => panic!("the current password is validated"),
    }
    let (_, action) = password::step(state, ChangeEvent::Validated { result: Err(AuthError::UnexpectedError) });
    assert!(failed(&action));

    let (_, action) = password::step(ChangeState::AwaitingHash, ChangeEvent::Hashed { hashing: Err(PasswordChangeError::Unexpected) });
    assert!(failed(&action));
    let (_, action) = password::step(
        ChangeState::AwaitingHash,
        ChangeEvent::Hashed { hashing: Err(PasswordChangeError::PolicyViolation(PolicyViolation::Length)) },
    );
    match action {
        ChangeAction::Finish { response } => {
            assert_eq!(json(response).text, "The new password should be between 12 and 128 characters long.")
        }
        _ => panic!("the request is answered"),
    }
    let (_, action) = password::step(ChangeState::AwaitingStore, ChangeEvent::Stored { outcome: StoreOutcome::Failed });
    assert!(failed(&action));
    let (_, action) = password::step(ChangeState::AwaitingStore, ChangeEvent::EmailFailed);
    assert!(failed(&action));
    let (_, action) = password::step(ChangeState::Finished, ChangeEvent::Stored { outcome: StoreOutcome::Stored });
    assert!(failed(&action));
}

#[test]
fn the_form_shows_the_errors_that_were_left() {
    let flashes = vec![
        FlashMessage { level: Level::Info, text: "not shown".to_string() },
        FlashMessage { level: Level::Error, text: "first".to_string() },
        FlashMessage { level: Level::Warning, text: "not shown either".to_string() },
        FlashMessage { level: Level::Error, text: "second".to_string() },
    ];
    let body = match change_password_form(true, &flashes) {
        Page::Html(body) => body,
        Page::Redirect(_) => panic!("a user who is logged in was sent away"),
    };
    let msg_html = "<p><strong>Error</strong>: <i>first</i></p>\n\n<p><strong>Error</strong>: <i>second</i></p>\n\n";
    let expected = format!(
        r#"<!DOCTYPE html>
<html lang="en">
<head>
    <meta http-equiv="content-type" content="text/html; charset=utf-8">
    <title>Change Password</title>
</head>
<body>
    {msg_html}
    <form action="/admin/password" method="post">
        <label>Current password
            <input type="password" placeholder="Enter current password" name="current_password">
        </label>
        <br>
        <label>New password
            <input type="password" placeholder="New password" name="new_password">
        </label>
        <br>
        <label>
            <input type="password" placeholder="Type the new password again" name="new_password_check">
        </label>
        <br>
        <button type="submit">Change password</button>
    </form>
</body>
</html>"#
    );
    assert_eq!(body, expected);
    match change_password_form(true, &Vec::new()) {
        Page::Html(body) => assert!(body.contains("<body>\n    \n    <form")),
        Page::Redirect(_) => panic!("a user who is logged in was sent away"),
    }
}

#[test]
fn an_issue_goes_to_the_subscribers_with_a_valid_address() {
    let body = BodyData {
        title: "Newsletter title".to_string(),
        html_content: "<p>Newsletter body as HTML</p>".to_string(),
        text_content: "Newsletter body as plain text".to_string(),
    };
    assert_eq!(body.title, "Newsletter title");
    let rows = vec![
        "broken".to_string(),
        "ursula@domain.com".to_string(),
        "".to_string(),
        "also broken@".to_string(),
        "victor@domain.com".to_string(),
        "@domain.com".to_string(),
    ];
    let (mut state, mut action) = newsletters::begin(true);
    assert!(matches!(state, PublishState::AwaitingSubscribers));
    let mut sent: Vec<String> = Vec::new();
    let outcome = loop {
        let event = match action {
            PublishAction::FetchSubscribers => PublishEvent::Subscribers { rows: rows.clone() },
            PublishAction::Send { to } => {
                sent.push(to.to_string());
                PublishEvent::Sent
            }
            PublishAction::Finish { outcome } => break outcome,
        };
        let stepped = newsletters::step(state, event);
        state = stepped.0;
        action = stepped.1;
    };
    assert_eq!(sent, vec!["ursula@domain.com".to_string(), "victor@domain.com".to_string()]);
    let notice = outcome.ok().expect("a notice");
    assert_eq!(notice.level, NoticeLevel::Info);
    assert_eq!(notice.text, "The newsletter issue has been published");
    assert_eq!(notice.redirect, "/admin/newsletters");
}

#[test]
fn stored_addresses_are_read_each_on_its_own() {
    let subscribers = newsletters::confirmed_subscribers(vec![
        "ursula@domain.com".to_string(),
        "ursuladomain.com".to_string(),
    ]);
    assert_eq!(subscribers.len(), 2);
    assert_eq!(subscribers[0].as_ref().ok().map(|s| s.email.to_string()), Some("ursula@domain.com".to_string()));
    assert_eq!(
        subscribers[1].as_ref().err().map(|e| e.to_string()),
        Some("ursuladomain.com is not a valid subscriber email".to_string())
    );
    assert!(newsletters::confirmed_subscribers(Vec::new()).is_empty());
}

#[test]
fn an_issue_without_subscribers_is_published_at_once() {
    let (state, _) = newsletters::begin(true);
    let (state, action) = newsletters::step(state, PublishEvent::Subscribers { rows: vec!["broken".to_string()] });
    assert!(matches!(state, PublishState::Finished));
    match action {
        PublishAction::Finish { outcome: Ok(notice) } => {
            assert_eq!(notice.text, "The newsletter issue has been published")
        }
        _ => panic!("the request is answered"),
    }
}

#[test]
fn a_form_that_is_not_filled_out_is_answered_with_a_notice() {
    let (state, action) = newsletters::begin(false);
    assert!(matches!(state, PublishState::Finished));
    match action {
        PublishAction::Finish { outcome: Ok(notice) } => {
            assert_eq!(notice.level, NoticeLevel::Error);
            assert_eq!(notice.text, "Part of the form is not filled out");
            assert_eq!(notice.redirect, "/admin/newsletters");
        }
        _ => panic!("the request is answered"),
    }
}

#[test]
fn a_send_that_fails_ends_the_publishing() {
    let rows = vec!["ursula@domain.com".to_string(), "victor@domain.com".to_string()];
    let (state, _) = newsletters::begin(true);
    let (state, action) = newsletters::step(state, PublishEvent::Subscribers { rows });
    assert!(matches!(&action, PublishAction::Send { to } if to.as_ref() == "ursula@domain.com"));
    let (state, action) = newsletters::step(state, PublishEvent::Sent);
    assert!(matches!(&action, PublishAction::Send { to } if to.as_ref() == "victor@domain.com"));
    let (state, action) = newsletters::step(state, PublishEvent::SendFailed);
    assert!(matches!(state, PublishState::Finished));
    match action {
        PublishAction::Finish { outcome: Err(e) } => {
            assert!(matches!(e, PublishError::UnexpectedError(_)));
            assert_eq!(e.to_string(), "Failed to send newsletter issue to victor@domain.com,");
            assert_eq!(e.response().status, 500);
        }
        _ => panic!("the request is answered with an error"),
    }

    let (state, _) = newsletters::begin(true);
    let (_, action) = newsletters::step(state, PublishEvent::SubscribersFailed { cause: "the store is down".to_string() });
    match action {
        PublishAction::Finish { outcome: Err(e) } => assert_eq!(e.to_string(), "the store is down"),
        _ => panic!("the request is answered with an error"),
    }
    let (state, _) = newsletters::begin(true);
    let (_, action) = newsletters::step(state, PublishEvent::Sent);
    match action {
        PublishAction::Finish { outcome: Err(e) } => assert_eq!(e.to_string(), "An event came out of turn"),
        _ => panic!("the request is answered with an error"),
    }
}

#[test]
fn publish_errors_are_answered_by_kind() {
    let refused = PublishError::AuthError("no session".to_string());
    assert_eq!(refused.to_string(), "Authentication failed");
    assert_eq!(refused.response().status, 401);
    assert_eq!(refused.response().www_authenticate, Some("Basic realm=\"publish\"".to_string()));
    let unexpected = PublishError::UnexpectedError("the store is down".to_string());
    assert_eq!(unexpected.to_string(), "the store is down");
    assert_eq!(unexpected.response().status, 500);
    assert_eq!(unexpected.response().www_authenticate, None);
    let form = PublishError::FormExtractionError("missing field `title`".to_string());
    assert_eq!(form.to_string(), "missing field `title`");
    assert_eq!(form.response().status, 422);
    assert_eq!(form.response().www_authenticate, None);
}

#[test]
fn the_end_of_a_task_is_reported() {
    let report = report_exit("API", Ok(Ok(())));
    assert_eq!(report.level, zero2prod::telemetry::Level::Info);
    assert_eq!(report.text, "API has exited");
    assert!(report.error.is_none());

    let failure = || Failure { message: "bind failed".to_string(), cause_chain: "bind failed: in use".to_string() };
    let report = report_exit("API", Ok(Err(failure())));
    assert_eq!(report.level, zero2prod::telemetry::Level::Error);
    assert_eq!(report.text, "API failed");
    let logged = report.error.expect("the error");
    assert_eq!(logged.message, "bind failed");
    assert_eq!(logged.cause_chain, "bind failed: in use");

    let report = report_exit("API", Err(failure()));
    assert_eq!(report.level, zero2prod::telemetry::Level::Error);
    assert_eq!(report.text, "API task failed to complete");
    assert_eq!(report.error.expect("the error").message, "bind failed");
}
