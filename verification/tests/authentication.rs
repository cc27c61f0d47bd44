use argon2::password_hash::{PasswordHasher, SaltString};
use argon2::{Algorithm, Argon2, Params, Version};
use newsletter::authentication::{
    password_verdict, resolve_identity, validate_credentials, verify_password_hash, AuthError,
    Credentials, Fault, Rejection, StoredCredentials, FALLBACK_PASSWORD_HASH,
};
use uuid::Uuid;

/// A PHC string for `password`, computed with parameters that cost little.
fn hash_of(password: &str) -> String {
    let salt = SaltString::encode_b64(b"a salt of one's own").unwrap();
    let hasher = Argon2::new(
        Algorithm::Argon2id,
        Version::V0x13,
        Params::new(8, 1, 1, None).unwrap(),
    );
    hasher
        .hash_password(password.as_bytes(), &salt)
        .unwrap()
        .to_string()
}

fn credentials(username: &str, password: &str) -> Credentials {
    Credentials {
        username: username.to_string(),
        password: password.to_string(),
    }
}

fn record(id: u128, password: &str) -> StoredCredentials {
    StoredCredentials {
        user_id: Uuid::from_u128(id),
        password_hash: hash_of(password),
    }
}

#[test]
fn the_right_password_for_a_known_user_gives_the_id_of_the_record() {
    let outcome = validate_credentials(
        credentials("admin", "everythinghastostartsomewhere"),
        Some(record(42, "everythinghastostartsomewhere")),
    );
    assert_eq!(outcome, Ok(Uuid::from_u128(42)));
}

#[test]
fn a_wrong_password_for_a_known_user_is_invalid_credentials() {
    let outcome = validate_credentials(
        credentials("admin", "not the password"),
        Some(record(42, "everythinghastostartsomewhere")),
    );
    assert_eq!(
        outcome,
        Err(AuthError::InvalidCredentials(Rejection::WrongPassword))
    );
}

#[test]
fn an_unknown_user_is_invalid_credentials_whatever_the_password() {
    // The password is held against the fallback hash first, which turns it
    // down: the outcome is that of a wrong password.
    let outcome = validate_credentials(credentials("nobody", "any password"), None);
    assert_eq!(
        outcome,
        Err(AuthError::InvalidCredentials(Rejection::WrongPassword))
    );
    let known = validate_credentials(
        credentials("admin", "any password"),
        Some(record(42, "everythinghastostartsomewhere")),
    );
    assert_eq!(outcome, known);
}

#[test]
fn a_stored_hash_that_is_no_phc_string_is_an_unexpected_error() {
    let outcome = validate_credentials(
        credentials("admin", "password"),
        Some(StoredCredentials {
            user_id: Uuid::from_u128(42),
            password_hash: "password".to_string(),
        }),
    );
    assert_eq!(outcome, Err(AuthError::UnexpectedError(Fault::MalformedHash)));
}

#[test]
fn the_password_is_not_compared_as_text() {
    // A wrapper that compared its arguments would accept this.
    let hash = hash_of("password");
    assert_eq!(
        verify_password_hash(&hash, &hash),
        Err(AuthError::InvalidCredentials(Rejection::WrongPassword))
    );
    assert_eq!(verify_password_hash(&hash, "password"), Ok(()));
}

#[test]
fn the_fallback_hash_is_a_phc_string_that_is_verified_against() {
    assert_eq!(
        verify_password_hash(FALLBACK_PASSWORD_HASH, "password"),
        Err(AuthError::InvalidCredentials(Rejection::WrongPassword))
    );
    assert_eq!(
        FALLBACK_PASSWORD_HASH,
        "$argon2id$v=19$m=15000,t=2,p=1$gZiV/M1gPc22ElAH/Jh1Hw$CWOrkoo7oJBQ/iyh7uJ0LO2aLEfrHwTWllSAxT0zRno"
    );
}

#[test]
fn an_empty_hash_is_malformed() {
    assert_eq!(
        verify_password_hash("", "password"),
        Err(AuthError::UnexpectedError(Fault::MalformedHash))
    );
}

#[test]
fn the_verdict_follows_from_what_the_hash_check_found() {
    assert_eq!(password_verdict(true, true), Ok(()));
    assert_eq!(
        password_verdict(true, false),
        Err(AuthError::InvalidCredentials(Rejection::WrongPassword))
    );
    assert_eq!(
        password_verdict(false, false),
        Err(AuthError::UnexpectedError(Fault::MalformedHash))
    );
    assert_eq!(
        password_verdict(false, true),
        Err(AuthError::UnexpectedError(Fault::MalformedHash))
    );
}

#[test]
fn an_identity_needs_a_record_and_a_verdict_in_favour() {
    let id = Uuid::from_u128(9);
    assert_eq!(resolve_identity(Some(id), Ok(())), Ok(id));
    assert_eq!(
        resolve_identity(None, Ok(())),
        Err(AuthError::InvalidCredentials(Rejection::UnknownUsername))
    );
    let wrong = AuthError::InvalidCredentials(Rejection::WrongPassword);
    assert_eq!(resolve_identity(Some(id), Err(wrong)), Err(wrong));
    assert_eq!(resolve_identity(None, Err(wrong)), Err(wrong));
    let fault = AuthError::UnexpectedError(Fault::MalformedHash);
    assert_eq!(resolve_identity(Some(id), Err(fault)), Err(fault));
}

#[test]
fn invalid_credentials_say_the_same_whatever_the_reason() {
    assert_eq!(
        AuthError::InvalidCredentials(Rejection::UnknownUsername).message(),
        "Invalid credentials"
    );
    assert_eq!(
        AuthError::InvalidCredentials(Rejection::WrongPassword).message(),
        "Invalid credentials"
    );
}

#[test]
fn a_fault_says_what_went_wrong() {
    assert_eq!(
        AuthError::UnexpectedError(Fault::Storage).message(),
        "Failed to perform the query to retrieve stored credentials."
    );
    assert_eq!(
        AuthError::UnexpectedError(Fault::MalformedHash).message(),
        "Failed to parse hash in PHC string format."
    );
    assert_eq!(
        AuthError::UnexpectedError(Fault::Dispatch).message(),
        "Failed to spawn blocking task"
    );
    assert_eq!(Rejection::UnknownUsername.message(), "Unknown username");
    assert_eq!(Rejection::WrongPassword.message(), "Invalid password");
}

#[test]
fn the_report_names_the_reason_as_the_cause() {
    assert_eq!(
        AuthError::InvalidCredentials(Rejection::UnknownUsername).report(),
        "Invalid credentials\n\nCaused by:\n\tUnknown username\n"
    );
    assert_eq!(
        AuthError::UnexpectedError(Fault::Dispatch).report(),
        "Failed to spawn blocking task\n\n"
    );
}
