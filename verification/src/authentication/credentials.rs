//! Credential validation: which account, if any, a pair of e-mail address and
//! password belongs to.
//!
//! Validation never tells a caller whether the address is unknown or the
//! password wrong, neither by its answer nor by the work it does: it verifies
//! the password once in both cases, against the account's hash or, where
//! there is no account, against a fallback hash of the same cost.
//!
//! Looking an account up and running the verification off the request path
//! are the caller's work. [`start`] and [`step`] say what to do next;
//! [`validate_credentials`] does it all in one call for a caller that has the
//! account store's answer at hand.

use crate::authentication::codec::{
    decode, decoding, lemma_decoding_encoding, standard_params, StoredPasswordHash,
};
use crate::authentication::identity::{AuthenticatedIdentity, Identity};
use crate::authentication::password::{
    cannot_hash, compute_password_hash, hash_model, hashed, is_hash_of, lemma_hash_verifies,
    verified, verify_password_hash, HashError, VerifyOutcome, KEY_LEN, SALT_LEN,
};
use crate::authentication::secret::PlaintextPassword;
use crate::domain::email::Email;
use vstd::prelude::*;

verus! {

/// An e-mail address and the password presented with it.
pub struct Credentials {
    pub email: Email,
    pub password: PlaintextPassword,
}

/// Why validation did not return an identity.
#[derive(Clone, Copy, Debug, PartialEq, Eq, Structural)]
pub enum AuthError {
    /// No account has this address, or the password is not the account's.
    InvalidCredentials,
    /// The account store or the verification itself failed.
    UnexpectedError,
}

/// What the account store answered when asked for the hash of an address.
pub enum Lookup {
    /// The account with this address, and its stored hash.
    Found { identity: Identity, password_hash: StoredPasswordHash },
    /// No account has this address.
    Missing,
    /// The store could not answer.
    Failed,
}

/// The answer of the account store, as plain values.
pub ghost enum LookupModel {
    Found { identity: Identity, password_hash: Seq<u8> },
    Missing,
    Failed,
}

impl View for Lookup {
    type V = LookupModel;

    open spec fn view(&self) -> LookupModel {
        match self {
            Lookup::Found { identity, password_hash } => LookupModel::Found {
                identity: *identity,
                password_hash: password_hash@,
            },
            Lookup::Missing => LookupModel::Missing,
            Lookup::Failed => LookupModel::Failed,
        }
    }
}

/// Whether `text` is a stored hash with the parameters and lengths of the
/// hashes that this library makes, so that verifying against it costs what
/// verifying against any of them costs.
pub open spec fn standard_cost(text: Seq<u8>) -> bool {
    match decoding(text) {
        Some(h) => h.params == standard_params() && h.salt.len() == SALT_LEN && h.key.len()
            == KEY_LEN,
        None => false,
    }
}

/// The hash that is verified where no account is found. It is a stored hash
/// of standard cost; nobody needs to know a password for it.
pub struct FallbackHash {
    stored: StoredPasswordHash,
}

impl View for FallbackHash {
    type V = Seq<u8>;

    closed spec fn view(&self) -> Seq<u8> {
        self.stored@
    }
}

impl FallbackHash {
    #[verifier::type_invariant]
    closed spec fn inv(self) -> bool {
        standard_cost(self.stored@)
    }

    /// Takes `stored` as the fallback where it is a stored hash of standard
    /// cost.
    pub fn from_stored(stored: StoredPasswordHash) -> (fallback: Option<FallbackHash>)
        ensures
            fallback is Some <==> standard_cost(stored@),
            fallback matches Some(f) ==> f@ == stored@,
    {
        match decode(&stored) {
            Ok(parts) => {
                if parts.params().is_standard() && parts.salt().len() == SALT_LEN
                    && parts.key().len() == KEY_LEN {
                    Some(FallbackHash { stored })
                } else {
                    None
                }
            },
            Err(_) => None,
        }
    }

    /// Makes a fallback by hashing `password` under a fresh salt.
    pub fn generate(password: &PlaintextPassword) -> (fallback: Result<FallbackHash, HashError>)
        ensures
            match fallback {
                Ok(f) => standard_cost(f@) && is_hash_of(f@, password@),
                Err(e) => e == HashError::HashingUnavailable && cannot_hash(password@),
            },
    {
        match compute_password_hash(password) {
            Ok(stored) => {
                proof {
                    let salt = choose|salt: Seq<u8>|
                        salt.len() == SALT_LEN && #[trigger] hashed(password@, salt) == Some(
                            stored@,
                        );
                    lemma_decoding_encoding(hash_model(password@, salt)->0);
                }
                Ok(FallbackHash { stored })
            },
            Err(e) => Err(e),
        }
    }

    /// The stored hash.
    pub fn stored(&self) -> (stored: &StoredPasswordHash)
        ensures
            stored@ == self@,
            standard_cost(self@),
    {
        proof {
            use_type_invariant(self);
        }
        &self.stored
    }
}

/// Where a validation stands.
pub enum ValidationState {
    /// The account store has been asked; the password waits for its answer.
    AwaitingLookup { password: PlaintextPassword },
    /// The one verification has been asked for. `identity` is the account
    /// whose hash is verified, `None` where it is the fallback hash.
    AwaitingVerification { identity: Option<Identity> },
    /// The validation is over.
    Finished { result: Result<AuthenticatedIdentity, AuthError> },
}

/// What happened outside.
pub enum ValidationEvent {
    /// The account store answered.
    Looked { lookup: Lookup },
    /// The verification ran to its end.
    Verified { outcome: VerifyOutcome },
    /// The verification did not run to its end.
    WorkerFailed,
}

/// What is to be done next.
pub enum ValidationAction {
    /// Ask the account store for the account and hash of this address.
    LookUp { email: Email },
    /// Verify the password against the hash, off the request path.
    Verify { password: PlaintextPassword, password_hash: StoredPasswordHash },
    /// Hand the result to the caller.
    Finish { result: Result<AuthenticatedIdentity, AuthError> },
}

/// A result of validation, as plain values.
pub type ResultModel = Result<Identity, AuthError>;

/// Where a validation stands, as plain values.
pub ghost enum StateModel {
    AwaitingLookup { password: Seq<u8> },
    AwaitingVerification { identity: Option<Identity> },
    Finished { result: ResultModel },
}

/// What happened outside, as plain values.
pub ghost enum EventModel {
    Looked { lookup: LookupModel },
    Verified { outcome: VerifyOutcome },
    WorkerFailed,
}

/// What is to be done next, as plain values.
pub ghost enum ActionModel {
    LookUp { email: Seq<char> },
    Verify { password: Seq<u8>, password_hash: Seq<u8> },
    Finish { result: ResultModel },
}

/// The plain value of a result.
pub open spec fn result_model(result: Result<AuthenticatedIdentity, AuthError>) -> ResultModel {
    match result {
        Ok(authenticated) => Ok(authenticated@),
        Err(e) => Err(e),
    }
}

impl View for ValidationState {
    type V = StateModel;

    open spec fn view(&self) -> StateModel {
        match self {
            ValidationState::AwaitingLookup { password } => StateModel::AwaitingLookup {
                password: password@,
            },
            ValidationState::AwaitingVerification { identity } => StateModel::AwaitingVerification {
                identity: *identity,
            },
            ValidationState::Finished { result } => StateModel::Finished {
                result: result_model(*result),
            },
        }
    }
}

impl View for ValidationEvent {
    type V = EventModel;

    open spec fn view(&self) -> EventModel {
        match self {
            ValidationEvent::Looked { lookup } => EventModel::Looked { lookup: lookup@ },
            ValidationEvent::Verified { outcome } => EventModel::Verified { outcome: *outcome },
            ValidationEvent::WorkerFailed => EventModel::WorkerFailed,
        }
    }
}

impl View for ValidationAction {
    type V = ActionModel;

    open spec fn view(&self) -> ActionModel {
        match self {
            ValidationAction::LookUp { email } => ActionModel::LookUp { email: email@ },
            ValidationAction::Verify { password, password_hash } => ActionModel::Verify {
                password: password@,
                password_hash: password_hash@,
            },
            ValidationAction::Finish { result } => ActionModel::Finish {
                result: result_model(*result),
            },
        }
    }
}

/// What a verification that has run to its end means: the identity where an
/// account was found and its password matched, `InvalidCredentials` in every
/// other case.
pub open spec fn conclusion(identity: Option<Identity>, outcome: VerifyOutcome) -> ResultModel {
    match (identity, outcome) {
        (Some(identity), VerifyOutcome::Match) => Ok(identity),
        _ => Err(AuthError::InvalidCredentials),
    }
}

/// The end of a validation with `result`.
pub open spec fn finished(result: ResultModel) -> (StateModel, ActionModel) {
    (StateModel::Finished { result }, ActionModel::Finish { result })
}

/// The state and the action that follow `event` in `state`.
///
/// An answer of the store, found or missing, is followed by one verification
/// of the password: against the account's hash or against `fallback`. A store
/// that fails, a verification that does not end, and an event out of turn end
/// the validation with `UnexpectedError`.
pub open spec fn next(state: StateModel, event: EventModel, fallback: Seq<u8>) -> (
    StateModel,
    ActionModel,
) {
    match state {
        StateModel::AwaitingLookup { password } => match event {
            EventModel::Looked { lookup: LookupModel::Found { identity, password_hash } } => (
                StateModel::AwaitingVerification { identity: Some(identity) },
                ActionModel::Verify { password, password_hash },
            ),
            EventModel::Looked { lookup: LookupModel::Missing } => (
                StateModel::AwaitingVerification { identity: None },
                ActionModel::Verify { password, password_hash: fallback },
            ),
            _ => finished(Err(AuthError::UnexpectedError)),
        },
        StateModel::AwaitingVerification { identity } => match event {
            EventModel::Verified { outcome } => finished(conclusion(identity, outcome)),
            _ => finished(Err(AuthError::UnexpectedError)),
        },
        StateModel::Finished { result } => finished(result),
    }
}

/// The result of validating `password` against what the store answered.
pub open spec fn validated(password: Seq<u8>, lookup: LookupModel) -> ResultModel {
    match lookup {
        LookupModel::Found { identity, password_hash } => conclusion(
            Some(identity),
            verified(password, password_hash),
        ),
        LookupModel::Missing => Err(AuthError::InvalidCredentials),
        LookupModel::Failed => Err(AuthError::UnexpectedError),
    }
}

/// Begins a validation: the store is to be asked for the address.
pub fn start(credentials: Credentials) -> (begun: (ValidationState, ValidationAction))
    ensures
        begun.0@ == (StateModel::AwaitingLookup { password: credentials.password@ }),
        begun.1@ == (ActionModel::LookUp { email: credentials.email@ }),
{
    (
        ValidationState::AwaitingLookup { password: credentials.password },
        ValidationAction::LookUp { email: credentials.email },
    )
}

/// Ends a validation with `result`.
fn finish(result: Result<Identity, AuthError>) -> (ended: (ValidationState, ValidationAction))
    ensures
        (ended.0@, ended.1@) == finished(result),
{
    let result = match result {
        Ok(identity) => Ok(AuthenticatedIdentity::new(identity)),
        Err(e) => Err(e),
    };
    (ValidationState::Finished { result }, ValidationAction::Finish { result })
}

/// Takes a validation one step on: the state and the action that follow
/// `event` in `state`.
pub fn step(state: ValidationState, event: ValidationEvent, fallback: &FallbackHash) -> (stepped: (
    ValidationState,
    ValidationAction,
))
    ensures
        (stepped.0@, stepped.1@) == next(state@, event@, fallback@),
{
    match state {
        ValidationState::AwaitingLookup { password } => match event {
            ValidationEvent::Looked { lookup: Lookup::Found { identity, password_hash } } => (
                ValidationState::AwaitingVerification { identity: Some(identity) },
                ValidationAction::Verify { password, password_hash },
            ),
            ValidationEvent::Looked { lookup: Lookup::Missing } => (
                ValidationState::AwaitingVerification { identity: None },
                ValidationAction::Verify { password, password_hash: fallback.stored().clone() },
            ),
            _ => finish(Err(AuthError::UnexpectedError)),
        },
        ValidationState::AwaitingVerification { identity } => match event {
            ValidationEvent::Verified { outcome } => match (identity, outcome) {
                (Some(identity), VerifyOutcome::Match) => finish(Ok(identity)),
                _ => finish(Err(AuthError::InvalidCredentials)),
            },
            _ => finish(Err(AuthError::UnexpectedError)),
        },
        ValidationState::Finished { result } => (
            ValidationState::Finished { result },
            ValidationAction::Finish { result },
        ),
    }
}

/// Validates `credentials` against what the account store answered for their
/// address, doing the verification in place.
///
/// The identity comes back where an account was found and the password
/// matches its hash. An unknown address and a wrong password both give
/// `InvalidCredentials`, each after one verification; a failed store gives
/// `UnexpectedError`.
pub fn validate_credentials(credentials: Credentials, lookup: Lookup, fallback: &FallbackHash) -> (result:
    Result<AuthenticatedIdentity, AuthError>)
    ensures
        result_model(result) == validated(credentials.password@, lookup@),
{
    let (state, _) = start(credentials);
    let (state, action) = step(state, ValidationEvent::Looked { lookup }, fallback);
    match action {
        ValidationAction::Verify { password, password_hash } => {
            let outcome = verify_password_hash(&password, &password_hash);
            let (_, action) = step(state, ValidationEvent::Verified { outcome }, fallback);
            match action {
                ValidationAction::Finish { result } => result,
                _ => Err(AuthError::UnexpectedError),
            }
        },
        ValidationAction::Finish { result } => result,
        ValidationAction::LookUp { .. } => Err(AuthError::UnexpectedError),
    }
}

/// The result of a whole run of the steps: the store's answer, then, where a
/// verification was asked for, its true outcome.
pub open spec fn run(password: Seq<u8>, lookup: LookupModel, fallback: Seq<u8>) -> ResultModel {
    let (state, action) = next(
        StateModel::AwaitingLookup { password },
        EventModel::Looked { lookup },
        fallback,
    );
    match action {
        ActionModel::Verify { password, password_hash } => {
            let outcome = verified(password, password_hash);
            match next(state, EventModel::Verified { outcome }, fallback).1 {
                ActionModel::Finish { result } => result,
                _ => Err(AuthError::UnexpectedError),
            }
        },
        ActionModel::Finish { result } => result,
        ActionModel::LookUp { .. } => Err(AuthError::UnexpectedError),
    }
}

/// The steps, run to their end, give the result of validation, whatever the
/// fallback hash is.
pub proof fn lemma_run_is_validated(password: Seq<u8>, lookup: LookupModel, fallback: Seq<u8>)
    ensures
        run(password, lookup, fallback) == validated(password, lookup),
{
}

/// Whether an account is found or not, the store's answer is followed by one
/// verification of the presented password, and nothing else: against the
/// account's hash where there is one, against the fallback where there is
/// none.
pub proof fn lemma_one_verification_either_way(
    password: Seq<u8>,
    identity: Identity,
    password_hash: Seq<u8>,
    fallback: Seq<u8>,
)
    ensures
        next(
            StateModel::AwaitingLookup { password },
            EventModel::Looked { lookup: LookupModel::Found { identity, password_hash } },
            fallback,
        ).1 == (ActionModel::Verify { password, password_hash }),
        next(
            StateModel::AwaitingLookup { password },
            EventModel::Looked { lookup: LookupModel::Missing },
            fallback,
        ).1 == (ActionModel::Verify { password, password_hash: fallback }),
{
}

/// No second verification is ever asked for: once the one verification has
/// been asked for, every event ends the validation, and an ended validation
/// stays ended.
pub proof fn lemma_no_second_verification(
    identity: Option<Identity>,
    result: ResultModel,
    event: EventModel,
    fallback: Seq<u8>,
)
    ensures
        next(StateModel::AwaitingVerification { identity }, event, fallback).0 is Finished,
        next(StateModel::AwaitingVerification { identity }, event, fallback).1 is Finish,
        next(StateModel::Finished { result }, event, fallback) == finished(result),
{
}

/// An unknown address and a wrong password are answered alike: validation
/// gives `InvalidCredentials` where no account is found, and the same where
/// one is found and the password does not match its hash.
pub proof fn lemma_unknown_and_wrong_alike(
    password: Seq<u8>,
    identity: Identity,
    password_hash: Seq<u8>,
)
    requires
        verified(password, password_hash) == VerifyOutcome::NoMatch,
    ensures
        validated(password, LookupModel::Missing) == Err::<Identity, AuthError>(
            AuthError::InvalidCredentials,
        ),
        validated(password, LookupModel::Found { identity, password_hash }) == validated(
            password,
            LookupModel::Missing,
        ),
{
}

/// Where no account is found the outcome of the verification changes nothing:
/// the validation ends with `InvalidCredentials` even if the password matches
/// the fallback hash.
pub proof fn lemma_fallback_never_authenticates(outcome: VerifyOutcome, fallback: Seq<u8>)
    ensures
        next(
            StateModel::AwaitingVerification { identity: None },
            EventModel::Verified { outcome },
            fallback,
        ) == finished(Err(AuthError::InvalidCredentials)),
{
}

/// The right password for an account gives its identity: where the store
/// answers with an identity and a hash that was made of `password`,
/// validation returns that identity.
pub proof fn lemma_right_password_gives_identity(
    password: Seq<u8>,
    password_hash: Seq<u8>,
    identity: Identity,
)
    requires
        is_hash_of(password_hash, password),
    ensures
        validated(password, LookupModel::Found { identity, password_hash }) == Ok::<
            Identity,
            AuthError,
        >(identity),
{
    lemma_hash_verifies(password, password_hash);
}

/// The fallback costs what an account's hash costs: a hash that this library
/// made of any password and a text of standard cost name the same
/// parameters, and their salts and keys have the same lengths, so that the
/// one verification does the same work whether an account was found or not.
pub proof fn lemma_fallback_costs_the_same(
    password: Seq<u8>,
    password_hash: Seq<u8>,
    fallback: Seq<u8>,
)
    requires
        is_hash_of(password_hash, password),
        standard_cost(fallback),
    ensures
        standard_cost(password_hash),
        decoding(password_hash)->0.params == decoding(fallback)->0.params,
        decoding(password_hash)->0.salt.len() == decoding(fallback)->0.salt.len(),
        decoding(password_hash)->0.key.len() == decoding(fallback)->0.key.len(),
{
    let salt = choose|salt: Seq<u8>|
        salt.len() == SALT_LEN && #[trigger] hashed(password, salt) == Some(password_hash);
    lemma_decoding_encoding(hash_model(password, salt)->0);
}

} // verus!
