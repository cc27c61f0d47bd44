//! Checking a username and password against the stored credential record.

use argon2::{Argon2, PasswordHash, PasswordVerifier};
use crate::utils::{error_chain, error_chain_fmt};
use uuid::Uuid;
use vstd::prelude::*;

verus! {

/// `uuid::Uuid`, an identifier of 128 bits; it is handed on and compared,
/// and nothing else is read from it.
#[verifier::external_type_specification]
#[verifier::external_body]
pub struct ExUuid(Uuid);

/// The hash that a password is verified against when no record exists for
/// the username, so that an unknown username costs what a wrong password
/// costs.
pub const FALLBACK_PASSWORD_HASH: &'static str =
    "$argon2id$v=19$m=15000,t=2,p=1$gZiV/M1gPc22ElAH/Jh1Hw$CWOrkoo7oJBQ/iyh7uJ0LO2aLEfrHwTWllSAxT0zRno";

/// Why credentials were turned down.
#[derive(Clone, Copy, Debug, PartialEq, Eq, Structural)]
pub enum Rejection {
    /// No record exists for the username. The password is held against the
    /// fallback hash all the same, so this shows only where it matches that.
    UnknownUsername,
    /// The password does not match the stored hash.
    WrongPassword,
}

/// What kept a credential check from reaching a verdict.
#[derive(Clone, Copy, Debug, PartialEq, Eq, Structural)]
pub enum Fault {
    /// The credential store could not be queried.
    Storage,
    /// The stored hash is no PHC string.
    MalformedHash,
    /// The verification could not be run off the request's thread.
    Dispatch,
}

/// The two ways a credential check fails. Only `InvalidCredentials` is for
/// the user to see, and it looks the same whatever the reason.
#[derive(Clone, Copy, Debug, PartialEq, Eq, Structural)]
pub enum AuthError {
    InvalidCredentials(Rejection),
    UnexpectedError(Fault),
}

impl Rejection {
    /// What this rejection says of itself.
    pub open spec fn text(self) -> Seq<char> {
        match self {
            Rejection::UnknownUsername => "Unknown username"@,
            Rejection::WrongPassword => "Invalid password"@,
        }
    }

    /// What this rejection says of itself.
    pub fn message(&self) -> (message: String)
        ensures
            message@ == self.text(),
    {
        match self {
            Rejection::UnknownUsername => "Unknown username".to_owned(),
            Rejection::WrongPassword => "Invalid password".to_owned(),
        }
    }
}

impl Fault {
    /// What this fault says of itself.
    pub open spec fn text(self) -> Seq<char> {
        match self {
            Fault::Storage => "Failed to perform the query to retrieve stored credentials."@,
            Fault::MalformedHash => "Failed to parse hash in PHC string format."@,
            Fault::Dispatch => "Failed to spawn blocking task"@,
        }
    }

    /// What this fault says of itself.
    pub fn message(&self) -> (message: String)
        ensures
            message@ == self.text(),
    {
        match self {
            Fault::Storage =>
                "Failed to perform the query to retrieve stored credentials.".to_owned(),
            Fault::MalformedHash => "Failed to parse hash in PHC string format.".to_owned(),
            Fault::Dispatch => "Failed to spawn blocking task".to_owned(),
        }
    }
}

impl AuthError {
    /// What this error says of itself: of invalid credentials always the
    /// same, of a fault what the fault says.
    pub open spec fn text(self) -> Seq<char> {
        match self {
            AuthError::InvalidCredentials(_) => "Invalid credentials"@,
            AuthError::UnexpectedError(fault) => fault.text(),
        }
    }

    /// What caused this error, as far as it does not say so itself.
    pub open spec fn causes(self) -> Seq<Seq<char>> {
        match self {
            AuthError::InvalidCredentials(rejection) => seq![rejection.text()],
            AuthError::UnexpectedError(_) => seq![],
        }
    }

    /// What this error says of itself.
    pub fn message(&self) -> (message: String)
        ensures
            message@ == self.text(),
    {
        match self {
            AuthError::InvalidCredentials(_) => "Invalid credentials".to_owned(),
            AuthError::UnexpectedError(fault) => fault.message(),
        }
    }

    /// The report on this error and its cause, for the log.
    pub fn report(&self) -> (report: String)
        ensures
            report@ == error_chain(self.text(), self.causes()),
    {
        let mut causes: Vec<String> = Vec::new();
        match self {
            AuthError::InvalidCredentials(rejection) => {
                causes.push(rejection.message());
            },
            AuthError::UnexpectedError(_) => {},
        }
        assert(causes.deep_view() =~= self.causes());
        error_chain_fmt(self.message().as_str(), &causes)
    }
}

/// A username with the password offered for it.
pub struct Credentials {
    pub username: String,
    pub password: String,
}

/// The record that the credential store keeps for a username.
pub struct StoredCredentials {
    pub user_id: Uuid,
    pub password_hash: String,
}

/// Whether `text` parses as a password hash in the PHC string format.
pub uninterp spec fn is_phc_string(text: Seq<char>) -> bool;

/// Whether `hash` parses as a PHC string and Argon2, run on `password` with
/// the parameters and the salt that `hash` gives, arrives at its output.
pub uninterp spec fn argon2_accepts(hash: Seq<char>, password: Seq<char>) -> bool;

/// `PasswordHash::new` parses a PHC string; whether it succeeds depends on
/// the text alone, and `is_phc_string` stands for that.
#[verifier::external_body]
fn parses_as_phc(hash: &str) -> (ok: bool)
    ensures
        ok == is_phc_string(hash@),
{
    PasswordHash::new(hash).is_ok()
}

/// `Argon2::default().verify_password` recomputes the hash of `password`
/// from the algorithm, version, parameters and salt of the parsed `hash` and
/// compares the outputs; `argon2_accepts` stands for its success, and for
/// `false` where `hash` does not parse. The computation takes the memory that
/// the parameters of `hash` ask for.
#[verifier::external_body]
fn argon2_verify(hash: &str, password: &str) -> (ok: bool)
    ensures
        ok == argon2_accepts(hash@, password@),
{
    match PasswordHash::new(hash) {
        Ok(parsed) => Argon2::default().verify_password(password.as_bytes(), &parsed).is_ok(),
        Err(_) => false,
    }
}

/// The verdict on a password, given whether the stored hash parses and
/// whether the password matches it.
pub open spec fn verdict_of(well_formed: bool, accepted: bool) -> Result<(), AuthError> {
    if !well_formed {
        Err(AuthError::UnexpectedError(Fault::MalformedHash))
    } else if !accepted {
        Err(AuthError::InvalidCredentials(Rejection::WrongPassword))
    } else {
        Ok(())
    }
}

/// The hash that `password` is verified against: the stored one, or the
/// fallback where there is no record.
pub open spec fn hash_in_force(stored: Option<StoredCredentials>) -> Seq<char> {
    match stored {
        Some(record) => record.password_hash@,
        None => FALLBACK_PASSWORD_HASH@,
    }
}

/// Who the credentials identify, given the verdict on the password.
pub open spec fn identity_of(user_id: Option<Uuid>, verdict: Result<(), AuthError>) -> Result<
    Uuid,
    AuthError,
> {
    match verdict {
        Err(error) => Err(error),
        Ok(()) => match user_id {
            Some(id) => Ok(id),
            None => Err(AuthError::InvalidCredentials(Rejection::UnknownUsername)),
        },
    }
}

/// The id of a record, if there is one.
pub open spec fn id_of(stored: Option<StoredCredentials>) -> Option<Uuid> {
    match stored {
        Some(record) => Some(record.user_id),
        None => None,
    }
}

/// The outcome of checking `password` against `stored`.
pub open spec fn outcome_of(stored: Option<StoredCredentials>, password: Seq<char>) -> Result<
    Uuid,
    AuthError,
> {
    let hash = hash_in_force(stored);
    identity_of(id_of(stored), verdict_of(is_phc_string(hash), argon2_accepts(hash, password)))
}

/// Resolves `credentials` to the id of the stored record, which the caller
/// has looked up by the username. The password is verified in any case,
/// against the fallback hash where no record exists; the id is returned only
/// if a record exists and the password matches its hash.
pub fn validate_credentials(credentials: Credentials, stored: Option<StoredCredentials>) -> (r:
    Result<Uuid, AuthError>)
    ensures
        r == outcome_of(stored, credentials.password@),
{
    let (user_id, verdict) = match stored {
        Some(record) => (
            Some(record.user_id),
            verify_password_hash(record.password_hash.as_str(), credentials.password.as_str()),
        ),
        None => (None, verify_password_hash(FALLBACK_PASSWORD_HASH, credentials.password.as_str())),
    };
    resolve_identity(user_id, verdict)
}

/// Verifies `password_to_verify` against `password_hash_stored`.
pub fn verify_password_hash(password_hash_stored: &str, password_to_verify: &str) -> (r: Result<
    (),
    AuthError,
>)
    ensures
        r == verdict_of(
            is_phc_string(password_hash_stored@),
            argon2_accepts(password_hash_stored@, password_to_verify@),
        ),
{
    let well_formed = parses_as_phc(password_hash_stored);
    let accepted = well_formed && argon2_verify(password_hash_stored, password_to_verify);
    password_verdict(well_formed, accepted)
}

/// The verdict on a password, given whether the stored hash parses and
/// whether the password matches it.
pub fn password_verdict(well_formed: bool, accepted: bool) -> (r: Result<(), AuthError>)
    ensures
        r == verdict_of(well_formed, accepted),
{
    if !well_formed {
        Err(AuthError::UnexpectedError(Fault::MalformedHash))
    } else if !accepted {
        Err(AuthError::InvalidCredentials(Rejection::WrongPassword))
    } else {
        Ok(())
    }
}

/// Who the credentials identify, given the id of the record found for the
/// username and the verdict on the password.
pub fn resolve_identity(user_id: Option<Uuid>, verdict: Result<(), AuthError>) -> (r: Result<
    Uuid,
    AuthError,
>)
    ensures
        r == identity_of(user_id, verdict),
{
    match verdict {
        Err(error) => Err(error),
        Ok(()) => match user_id {
            Some(id) => Ok(id),
            None => Err(AuthError::InvalidCredentials(Rejection::UnknownUsername)),
        },
    }
}

/// An identity is given out only where a record exists for the username and
/// the password matches the hash of that record, and then it is the id of
/// that record.
pub proof fn lemma_identity_needs_record_and_match(
    stored: Option<StoredCredentials>,
    password: Seq<char>,
)
    ensures
        outcome_of(stored, password) is Ok <==> (stored matches Some(record) && is_phc_string(
            record.password_hash@,
        ) && argon2_accepts(record.password_hash@, password)),
        outcome_of(stored, password) matches Ok(id) ==> stored matches Some(record)
            && record.user_id == id,
{
}

/// Without a record the password is held against the fallback hash, and no
/// password is accepted: where the fallback hash parses, the outcome is that
/// of invalid credentials, as for a wrong password.
pub proof fn lemma_unknown_username_is_rejected(password: Seq<char>)
    ensures
        hash_in_force(None) == FALLBACK_PASSWORD_HASH@,
        outcome_of(None, password) is Err,
        is_phc_string(FALLBACK_PASSWORD_HASH@) ==> outcome_of(None, password) matches Err(
            AuthError::InvalidCredentials(_),
        ),
{
}

/// An unknown username and a wrong password are told apart by nothing that
/// the error shows: the variant and the message are the same.
pub proof fn lemma_rejections_look_alike(first: Rejection, second: Rejection)
    ensures
        AuthError::InvalidCredentials(first).text() == AuthError::InvalidCredentials(second).text(),
        AuthError::InvalidCredentials(first) is InvalidCredentials,
        AuthError::InvalidCredentials(second) is InvalidCredentials,
{
}

/// A wrong password on an existing record is reported as invalid credentials
/// and never gives out the id.
pub proof fn lemma_wrong_password_is_rejected(record: StoredCredentials, password: Seq<char>)
    requires
        is_phc_string(record.password_hash@),
        !argon2_accepts(record.password_hash@, password),
    ensures
        outcome_of(Some(record), password) == Err::<Uuid, AuthError>(
            AuthError::InvalidCredentials(Rejection::WrongPassword),
        ),
{
}

} // verus!
