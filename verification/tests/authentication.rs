use std::collections::HashMap;

use zero2prod::authentication::change::{
    change_password, changed, check_new_password, LengthPolicy, PasswordChangeError,
    PolicyViolation,
};
use zero2prod::authentication::codec::{decode, StoredPasswordHash};
use zero2prod::authentication::credentials::{
    start, step, validate_credentials, AuthError, Credentials, FallbackHash, Lookup,
    ValidationAction, ValidationEvent, ValidationState,
};
use zero2prod::authentication::identity::Identity;
use zero2prod::authentication::password::{
    compute_password_hash, compute_password_hash_with_salt, outcome_of, verify_password_hash,
    HashError, VerifyOutcome, KEY_LEN, SALT_LEN,
};
use zero2prod::authentication::user::{create_user, created, NewUser, StoreOutcome};
use zero2prod::authentication::PlaintextPassword;
use zero2prod::domain::Email;

fn secret(text: &str) -> PlaintextPassword {
    PlaintextPassword::new(text.to_string())
}

fn email(text: &str) -> Email {
    Email::parse(text.to_string()).expect("a valid address")
}

fn credentials(address: &str, password: &str) -> Credentials {
    Credentials { email: email(address), password: secret(password) }
}

fn fallback() -> FallbackHash {
    FallbackHash::generate(&secret("nobody has this password")).ok().expect("a fallback hash")
}

fn text_of(stored: &StoredPasswordHash) -> String {
    String::from_utf8(stored.as_bytes().to_vec()).expect("a stored hash is text")
}

fn stored(text: &str) -> StoredPasswordHash {
    StoredPasswordHash::from_bytes(text.as_bytes().to_vec())
}

/// A store of accounts for the tests: address to identity and stored hash.
struct Accounts {
    rows: HashMap<String, (Identity, StoredPasswordHash)>,
}

impl Accounts {
    fn new() -> Accounts {
        Accounts { rows: HashMap::new() }
    }

    fn lookup(&self, address: &str) -> Lookup {
        match self.rows.get(address) {
            Some((identity, password_hash)) => Lookup::Found {
                identity: *identity,
                password_hash: password_hash.clone(),
            },
            None => Lookup::Missing,
        }
    }

    fn validate(&self, address: &str, password: &str, fallback: &FallbackHash) -> Result<Identity, AuthError> {
        validate_credentials(credentials(address, password), self.lookup(address), fallback)
            .map(|authenticated| authenticated.identity())
    }

    fn create(&mut self, address: &str, password: &str) -> Identity {
        let account = create_user(NewUser {
            user_name: "test_user".to_string(),
            preferred_name: "user_1".to_string(),
            email: email(address),
            phone_number: "+14152370800".to_string(),
            password: secret(password),
        })
        .ok()
        .expect("an account");
        let identity = created(&account, StoreOutcome::Stored).expect("a stored account");
        self.rows.insert(account.email.to_string(), (account.user_id, account.password_hash));
        identity
    }

    fn overwrite(&mut self, identity: Identity, password_hash: StoredPasswordHash) {
        for row in self.rows.values_mut() {
            if row.0 == identity {
                row.1 = password_hash.clone();
            }
        }
    }
}

#[test]
fn a_password_holds_the_bytes_of_its_text() {
    let password = secret("pässword");
    assert_eq!(password.expose_bytes(), "pässword".as_bytes());
    assert_eq!(password.len(), 9);
    assert_eq!(secret("").len(), 0);
}

#[test]
fn every_password_matches_its_own_hash() {
    for text in ["CorrectHorse1", "", "a", "pässword with ünicode", "0123456789abcdef0123456789abcdef"] {
        let hash = compute_password_hash(&secret(text)).expect("a hash");
        assert_eq!(verify_password_hash(&secret(text), &hash), VerifyOutcome::Match, "{:?}", text);
    }
}

#[test]
fn another_password_does_not_match() {
    let hash = compute_password_hash(&secret("CorrectHorse1")).expect("a hash");
    for text in ["WrongHorse1", "correcthorse1", "CorrectHorse1 ", "CorrectHorse", ""] {
        assert_eq!(verify_password_hash(&secret(text), &hash), VerifyOutcome::NoMatch, "{:?}", text);
    }
}

#[test]
fn two_hashes_of_one_password_differ_and_both_match() {
    let first = compute_password_hash(&secret("CorrectHorse1")).expect("a hash");
    let second = compute_password_hash(&secret("CorrectHorse1")).expect("a hash");
    assert_ne!(first.as_bytes(), second.as_bytes());
    let first_parts = decode(&first).ok().expect("a stored hash");
    let second_parts = decode(&second).ok().expect("a stored hash");
    assert_ne!(first_parts.salt(), second_parts.salt());
    assert_eq!(first_parts.salt().len(), SALT_LEN);
    assert_eq!(first_parts.key().len(), KEY_LEN);
    assert!(first_parts.params().is_standard());
    assert_eq!(verify_password_hash(&secret("CorrectHorse1"), &first), VerifyOutcome::Match);
    assert_eq!(verify_password_hash(&secret("CorrectHorse1"), &second), VerifyOutcome::Match);
}

#[test]
fn distinct_salts_give_distinct_hashes() {
    let password = secret("CorrectHorse1");
    let one = compute_password_hash_with_salt(&password, &[1u8; 16]).expect("a hash");
    let two = compute_password_hash_with_salt(&password, &[2u8; 16]).expect("a hash");
    assert_ne!(one.as_bytes(), two.as_bytes());
    assert_eq!(
        text_of(&one),
        "$argon2id$v=19$m=15000,t=2,p=1$AQEBAQEBAQEBAQEBAQEBAQ$".to_string()
            + &text_of(&one)["$argon2id$v=19$m=15000,t=2,p=1$AQEBAQEBAQEBAQEBAQEBAQ$".len()..]
    );
    assert_eq!(HashError::HashingUnavailable, compute_password_hash_with_salt(&password, &[]).err().unwrap());
}

#[test]
fn a_derived_key_matches_only_the_same_stored_key() {
    assert_eq!(outcome_of(&[1, 2, 3], &Some(vec![1, 2, 3])), VerifyOutcome::Match);
    assert_eq!(outcome_of(&[1, 2, 3], &Some(vec![1, 2, 4])), VerifyOutcome::NoMatch);
    assert_eq!(outcome_of(&[1, 2, 3], &Some(vec![1, 2])), VerifyOutcome::NoMatch);
    assert_eq!(outcome_of(&[1, 2, 3], &Some(vec![1, 2, 3, 0])), VerifyOutcome::NoMatch);
    assert_eq!(outcome_of(&[1, 2, 3], &None), VerifyOutcome::NoMatch);
    assert_eq!(outcome_of(&[], &Some(vec![])), VerifyOutcome::Match);
}

#[test]
fn a_hash_with_a_truncated_salt_matches_nothing() {
    let hash = compute_password_hash(&secret("CorrectHorse1")).expect("a hash");
    let text = text_of(&hash);
    let parts: Vec<&str> = text.split('$').collect();
    assert_eq!(parts.len(), 6);
    for keep in 0..parts[4].len() {
        let corrupted = format!(
            "${}${}${}${}${}",
            parts[1], parts[2], parts[3], &parts[4][..keep], parts[5]
        );
        assert_eq!(
            verify_password_hash(&secret("CorrectHorse1"), &stored(&corrupted)),
            VerifyOutcome::NoMatch,
            "{:?}",
            corrupted
        );
    }
}

#[test]
fn corrupted_hashes_match_nothing() {
    let hash = compute_password_hash(&secret("CorrectHorse1")).expect("a hash");
    let text = text_of(&hash);
    let corrupted = [
        String::new(),
        text[1..].to_string(),
        text[..text.len() - 1].to_string(),
        text.replace("argon2id", "argon2i"),
        text.replace("v=19", "v=16"),
        text.replace("m=15000", "m=15001"),
        text.replace("t=2", "t=3"),
        text.replace("p=1", "p=0"),
        text.replace("m=15000", "m=4294967296"),
        format!("{}$", text),
        "not a hash".to_string(),
    ];
    for text in corrupted {
        assert_eq!(
            verify_password_hash(&secret("CorrectHorse1"), &stored(&text)),
            VerifyOutcome::NoMatch,
            "{:?}",
            text
        );
    }
}

#[test]
fn unknown_address_and_wrong_password_are_answered_alike() {
    let fallback = fallback();
    let mut accounts = Accounts::new();
    accounts.create("ursula@domain.com", "CorrectHorse1");
    let unknown = accounts.validate("nobody@domain.com", "CorrectHorse1", &fallback);
    let wrong = accounts.validate("ursula@domain.com", "WrongHorse1", &fallback);
    assert_eq!(unknown, Err(AuthError::InvalidCredentials));
    assert_eq!(wrong, unknown);
}

#[test]
fn both_unknown_address_and_known_one_are_verified_once() {
    let fallback = fallback();
    let hash = compute_password_hash(&secret("CorrectHorse1")).expect("a hash");
    let identity = Identity::from_u128(7);

    let (state, action) = start(credentials("ursula@domain.com", "WrongHorse1"));
    match action {
        ValidationAction::LookUp { email } => assert_eq!(email.as_ref(), "ursula@domain.com"),
        _ => panic!("the store is asked first"),
    }
    let found = Lookup::Found { identity, password_hash: hash.clone() };
    let (state, action) = step(state, ValidationEvent::Looked { lookup: found }, &fallback);
    let outcome = match action {
        ValidationAction::Verify { password, password_hash } => {
            assert_eq!(password.expose_bytes(), b"WrongHorse1");
            assert_eq!(password_hash.as_bytes(), hash.as_bytes());
            verify_password_hash(&password, &password_hash)
        }
        _ => panic!("a found account is verified"),
    };
    assert!(matches!(state, ValidationState::AwaitingVerification { identity: Some(i) } if i == identity));
    let (state, action) = step(state, ValidationEvent::Verified { outcome }, &fallback);
    assert!(matches!(state, ValidationState::Finished { result: Err(AuthError::InvalidCredentials) }));
    assert!(matches!(action, ValidationAction::Finish { result: Err(AuthError::InvalidCredentials) }));

    let (state, _) = start(credentials("nobody@domain.com", "WrongHorse1"));
    let (state, action) = step(state, ValidationEvent::Looked { lookup: Lookup::Missing }, &fallback);
    let outcome = match action {
        ValidationAction::Verify { password, password_hash } => {
            assert_eq!(password.expose_bytes(), b"WrongHorse1");
            assert_eq!(password_hash.as_bytes(), fallback.stored().as_bytes());
            verify_password_hash(&password, &password_hash)
        }
        _ => panic!("a missing account is verified against the fallback"),
    };
    assert!(matches!(state, ValidationState::AwaitingVerification { identity: None }));
    let (_, action) = step(state, ValidationEvent::Verified { outcome }, &fallback);
    assert!(matches!(action, ValidationAction::Finish { result: Err(AuthError::InvalidCredentials) }));
}

#[test]
fn the_fallback_password_authenticates_nobody() {
    let fallback = fallback();
    let (state, _) = start(credentials("nobody@domain.com", "nobody has this password"));
    let (state, action) = step(state, ValidationEvent::Looked { lookup: Lookup::Missing }, &fallback);
    let outcome = match action {
        ValidationAction::Verify { password, password_hash } => verify_password_hash(&password, &password_hash),
        _ => panic!("a missing account is verified against the fallback"),
    };
    assert_eq!(outcome, VerifyOutcome::Match);
    let (_, action) = step(state, ValidationEvent::Verified { outcome }, &fallback);
    assert!(matches!(action, ValidationAction::Finish { result: Err(AuthError::InvalidCredentials) }));
    let accounts = Accounts::new();
    assert_eq!(
        accounts.validate("nobody@domain.com", "nobody has this password", &fallback),
        Err(AuthError::InvalidCredentials)
    );
}

#[test]
fn failures_outside_are_unexpected_errors() {
    let fallback = fallback();
    let result = validate_credentials(credentials("ursula@domain.com", "CorrectHorse1"), Lookup::Failed, &fallback);
    assert_eq!(result.err(), Some(AuthError::UnexpectedError));

    let (state, _) = start(credentials("ursula@domain.com", "CorrectHorse1"));
    let (state, action) = step(state, ValidationEvent::Looked { lookup: Lookup::Failed }, &fallback);
    assert!(matches!(state, ValidationState::Finished { result: Err(AuthError::UnexpectedError) }));
    assert!(matches!(action, ValidationAction::Finish { result: Err(AuthError::UnexpectedError) }));
    let (_, action) = step(state, ValidationEvent::WorkerFailed, &fallback);
    assert!(matches!(action, ValidationAction::Finish { result: Err(AuthError::UnexpectedError) }));

    let (state, _) = start(credentials("ursula@domain.com", "CorrectHorse1"));
    let (state, _) = step(state, ValidationEvent::Looked { lookup: Lookup::Missing }, &fallback);
    let (_, action) = step(state, ValidationEvent::WorkerFailed, &fallback);
    assert!(matches!(action, ValidationAction::Finish { result: Err(AuthError::UnexpectedError) }));
}

#[test]
fn events_out_of_turn_end_the_validation() {
    let fallback = fallback();
    let (state, _) = start(credentials("ursula@domain.com", "CorrectHorse1"));
    let (_, action) = step(state, ValidationEvent::Verified { outcome: VerifyOutcome::Match }, &fallback);
    assert!(matches!(action, ValidationAction::Finish { result: Err(AuthError::UnexpectedError) }));

    let (state, _) = start(credentials("ursula@domain.com", "CorrectHorse1"));
    let (state, _) = step(state, ValidationEvent::Looked { lookup: Lookup::Missing }, &fallback);
    let (_, action) = step(state, ValidationEvent::Looked { lookup: Lookup::Missing }, &fallback);
    assert!(matches!(action, ValidationAction::Finish { result: Err(AuthError::UnexpectedError) }));
}

#[test]
fn a_correct_pair_returns_the_identity_of_the_account() {
    let fallback = fallback();
    let mut accounts = Accounts::new();
    let ursula = accounts.create("ursula@domain.com", "CorrectHorse1");
    let victor = accounts.create("victor@domain.com", "BatteryStaple2");
    assert_ne!(ursula, victor);
    assert_eq!(accounts.validate("ursula@domain.com", "CorrectHorse1", &fallback), Ok(ursula));
    assert_eq!(accounts.validate("victor@domain.com", "BatteryStaple2", &fallback), Ok(victor));
    assert_eq!(
        accounts.validate("victor@domain.com", "CorrectHorse1", &fallback),
        Err(AuthError::InvalidCredentials)
    );
}

#[test]
fn a_new_account_holds_what_the_user_gave() {
    let account = create_user(NewUser {
        user_name: "test_user".to_string(),
        preferred_name: "user_1".to_string(),
        email: email("ursula@domain.com"),
        phone_number: "+14152370800".to_string(),
        password: secret("CorrectHorse1"),
    })
    .ok()
    .expect("an account");
    assert_eq!(account.user_name, "test_user");
    assert_eq!(account.preferred_name, "user_1");
    assert_eq!(account.email.as_ref(), "ursula@domain.com");
    assert_eq!(account.phone_number, "+14152370800");
    assert_eq!(account.user_id.as_u128() >> 76 & 0xf, 4);
    assert_eq!(account.user_id.as_u128() >> 62 & 0x3, 2);
    assert_eq!(verify_password_hash(&secret("CorrectHorse1"), &account.password_hash), VerifyOutcome::Match);
    assert_eq!(created(&account, StoreOutcome::Stored), Ok(account.user_id));
    assert_eq!(created(&account, StoreOutcome::Failed), Err(AuthError::UnexpectedError));
}

#[test]
fn identities_are_random_uuids() {
    let one = Identity::generate();
    let two = Identity::generate();
    assert_ne!(one, two);
    for identity in [one, two] {
        assert_eq!(identity.as_u128() & 0x0000_0000_0000_f000_c000_0000_0000_0000, 0x0000_0000_0000_4000_8000_0000_0000_0000);
        assert_eq!(uuid::Uuid::from_u128(identity.as_u128()).get_version_num(), 4);
        assert_eq!(Identity::from_u128(identity.as_u128()), identity);
    }
}

#[test]
fn new_passwords_of_7_and_135_characters_are_refused() {
    let policy = LengthPolicy::standard();
    let user = Identity::from_u128(1);
    for len in [0usize, 7, 11, 129, 135] {
        let text = "x".repeat(len);
        let result = change_password(user, &secret(&text), &secret(&text), &policy);
        assert_eq!(
            result.err(),
            Some(PasswordChangeError::PolicyViolation(PolicyViolation::Length)),
            "{}",
            len
        );
    }
    for len in [12usize, 13, 127, 128] {
        let text = "x".repeat(len);
        let update = change_password(user, &secret(&text), &secret(&text), &policy).ok().expect("a new hash");
        assert_eq!(update.user_id, user);
        assert_eq!(verify_password_hash(&secret(&text), &update.password_hash), VerifyOutcome::Match);
    }
}

#[test]
fn a_confirmation_that_differs_is_refused() {
    let policy = LengthPolicy::standard();
    let user = Identity::from_u128(1);
    let result = change_password(user, &secret("NewHorseBattery2"), &secret("NewHorseBattery3"), &policy);
    assert_eq!(result.err(), Some(PasswordChangeError::PolicyViolation(PolicyViolation::Mismatch)));
    let result = change_password(user, &secret("NewHorseBattery2"), &secret("NewHorseBattery2 and more"), &policy);
    assert_eq!(result.err(), Some(PasswordChangeError::PolicyViolation(PolicyViolation::Mismatch)));
    let result = change_password(user, &secret("short"), &secret("other"), &policy);
    assert_eq!(result.err(), Some(PasswordChangeError::PolicyViolation(PolicyViolation::Length)));
    assert_eq!(check_new_password(&secret("NewHorseBattery2"), &secret("NewHorseBattery2"), &policy), None);
}

#[test]
fn the_length_policy_can_be_configured() {
    let policy = LengthPolicy { min: 14, max: 20 };
    assert_eq!(
        check_new_password(&secret("CorrectHorse1"), &secret("CorrectHorse1"), &policy),
        Some(PolicyViolation::Length)
    );
    assert_eq!(check_new_password(&secret("CorrectHorse123"), &secret("CorrectHorse123"), &policy), None);
    assert_eq!(
        check_new_password(&secret("CorrectHorse1234567890"), &secret("CorrectHorse1234567890"), &policy),
        Some(PolicyViolation::Length)
    );
    assert_eq!(LengthPolicy::standard(), LengthPolicy { min: 12, max: 128 });
}

#[test]
fn a_change_is_done_only_when_it_is_stored() {
    assert_eq!(changed(StoreOutcome::Stored), Ok(()));
    assert_eq!(changed(StoreOutcome::Failed), Err(PasswordChangeError::Unexpected));
}

#[test]
fn create_validate_change_validate() {
    let fallback = fallback();
    let policy = LengthPolicy::standard();
    let mut accounts = Accounts::new();
    let identity = accounts.create("ursula@domain.com", "CorrectHorse1");
    assert_eq!(accounts.validate("ursula@domain.com", "CorrectHorse1", &fallback), Ok(identity));
    assert_eq!(
        accounts.validate("ursula@domain.com", "WrongHorse1", &fallback),
        Err(AuthError::InvalidCredentials)
    );
    let update = change_password(identity, &secret("NewHorseBattery2"), &secret("NewHorseBattery2"), &policy)
        .ok()
        .expect("a new hash");
    accounts.overwrite(update.user_id, update.password_hash);
    assert_eq!(
        accounts.validate("ursula@domain.com", "CorrectHorse1", &fallback),
        Err(AuthError::InvalidCredentials)
    );
    assert_eq!(accounts.validate("ursula@domain.com", "NewHorseBattery2", &fallback), Ok(identity));
}

#[test]
fn a_fallback_is_a_hash_of_standard_cost() {
    let hash = compute_password_hash(&secret("anything")).expect("a hash");
    let fallback = FallbackHash::from_stored(hash.clone()).expect("a hash of standard cost");
    assert_eq!(fallback.stored().as_bytes(), hash.as_bytes());
    let known = "$argon2id$v=19$m=15000,t=2,p=1$gZiV/M1gPc22ElAH/Jh1Hw$CWOrkoo7oJBQ/iyh7uJ0LO2aLEfrHwTWllSAxT0zRno";
    assert!(FallbackHash::from_stored(stored(known)).is_some());
    for text in [
        "",
        "not a hash",
        "$argon2id$v=19$m=8,t=1,p=1$gZiV/M1gPc22ElAH/Jh1Hw$CWOrkoo7oJBQ/iyh7uJ0LO2aLEfrHwTWllSAxT0zRno",
        "$argon2i$v=19$m=15000,t=2,p=1$gZiV/M1gPc22ElAH/Jh1Hw$CWOrkoo7oJBQ/iyh7uJ0LO2aLEfrHwTWllSAxT0zRno",
        "$argon2id$v=19$m=15000,t=2,p=1$gZiV/M1gPc22ElAH$CWOrkoo7oJBQ/iyh7uJ0LO2aLEfrHwTWllSAxT0zRno",
        "$argon2id$v=19$m=15000,t=2,p=1$gZiV/M1gPc22ElAH/Jh1Hw$CWOrkoo7oJBQ/iyh7uJ0LO2aLEfrHwTW",
    ] {
        assert!(FallbackHash::from_stored(stored(text)).is_none(), "{:?}", text);
    }
}
