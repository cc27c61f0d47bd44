//! Logging an operator in.

use crate::authentication::{AuthError, Credentials, Fault, Rejection};
use crate::routes::{STATUS_INTERNAL_SERVER_ERROR, STATUS_SEE_OTHER, STATUS_UNAUTHORIZED};
use crate::utils::{SessionFailure, LOGIN_PAGE};
use uuid::Uuid;
use vstd::prelude::*;

verus! {

/// What the login form submits.
pub struct FormData {
    pub username: String,
    pub password: String,
}

/// What kept a login from being decided.
#[derive(Clone, Copy, Debug, PartialEq, Eq, Structural)]
pub enum LoginFault {
    /// The credential check did not reach a verdict.
    Credentials(Fault),
    /// The session could not take up the user.
    Session,
}

/// The two ways a login fails.
#[derive(Clone, Copy, Debug, PartialEq, Eq, Structural)]
pub enum LoginError {
    AuthError(Rejection),
    UnexpectedError(LoginFault),
}

/// Where an operator is sent after a login.
pub const DASHBOARD_PAGE: &'static str = "/admin/dashboard";

impl LoginError {
    /// What this error says of itself: never why the credentials failed.
    pub open spec fn text(self) -> Seq<char> {
        match self {
            LoginError::AuthError(_) => "Authentication failed"@,
            LoginError::UnexpectedError(_) => "Something went wrong"@,
        }
    }

    /// How this error shows as a status.
    pub open spec fn status(self) -> u16 {
        match self {
            LoginError::UnexpectedError(_) => STATUS_INTERNAL_SERVER_ERROR,
            LoginError::AuthError(_) => STATUS_UNAUTHORIZED,
        }
    }

    /// What this error says of itself.
    pub fn message(&self) -> (message: String)
        ensures
            message@ == self.text(),
    {
        match self {
            LoginError::AuthError(_) => "Authentication failed".to_owned(),
            LoginError::UnexpectedError(_) => "Something went wrong".to_owned(),
        }
    }

    /// The status that stands for this error.
    pub fn status_code(&self) -> (code: u16)
        ensures
            code == self.status(),
    {
        match self {
            LoginError::UnexpectedError(_) => STATUS_INTERNAL_SERVER_ERROR,
            LoginError::AuthError(_) => STATUS_UNAUTHORIZED,
        }
    }
}

/// The error that a failed credential check makes of a login.
pub open spec fn refused_by(error: AuthError) -> LoginError {
    match error {
        AuthError::InvalidCredentials(rejection) => LoginError::AuthError(rejection),
        AuthError::UnexpectedError(fault) => LoginError::UnexpectedError(
            LoginFault::Credentials(fault),
        ),
    }
}

/// The error that a failed credential check makes of a login: a rejection
/// fails the authentication, a fault is unexpected.
pub fn login_error(error: AuthError) -> (r: LoginError)
    ensures
        r == refused_by(error),
{
    match error {
        AuthError::InvalidCredentials(rejection) => LoginError::AuthError(rejection),
        AuthError::UnexpectedError(fault) => LoginError::UnexpectedError(
            LoginFault::Credentials(fault),
        ),
    }
}

/// The reply to a login: a redirection in any case, which carries the error
/// to show on the next page if the login failed.
#[derive(Clone, Copy, Debug)]
pub struct LoginReply {
    pub status_code: u16,
    pub location: &'static str,
    pub error: Option<LoginError>,
}

/// The reply to a login that failed with `error`.
pub open spec fn redirect_with(error: LoginError) -> LoginReply {
    LoginReply { status_code: STATUS_SEE_OTHER, location: LOGIN_PAGE, error: Some(error) }
}

/// The reply to a login that succeeded.
pub open spec fn welcome() -> LoginReply {
    LoginReply { status_code: STATUS_SEE_OTHER, location: DASHBOARD_PAGE, error: None }
}

/// Sends the client back to the login page, with `error` to show there.
pub fn login_redirect(error: LoginError) -> (reply: LoginReply)
    ensures
        reply == redirect_with(error),
{
    LoginReply { status_code: STATUS_SEE_OTHER, location: LOGIN_PAGE, error: Some(error) }
}

/// The progress of one login. Each state but the first and the last names
/// the outside work that is due.
pub enum Login {
    /// No request has come in.
    Idle,
    /// Due: the record for `credentials.username` is looked up and the
    /// credentials are validated against it.
    Authenticating { credentials: Credentials },
    /// Due: the session is renewed and takes up `user_id`.
    StoringUser { user_id: Uuid },
    /// The request is answered.
    Done(LoginReply),
}

/// What the outside world reports to a login.
pub enum LoginEvent {
    /// The form was submitted.
    Requested(FormData),
    /// The credentials were validated.
    CredentialsValidated(Result<Uuid, AuthError>),
    /// The session was asked to take up the user.
    SessionStored(Result<(), SessionFailure>),
}

/// The state that follows `state` on `event`. An event that `state` does not
/// wait for leaves it as it is.
pub open spec fn next_login(state: Login, event: LoginEvent) -> Login {
    match (state, event) {
        (Login::Idle, LoginEvent::Requested(form)) => Login::Authenticating {
            credentials: Credentials { username: form.username, password: form.password },
        },
        (Login::Authenticating { .. }, LoginEvent::CredentialsValidated(outcome)) => match outcome {
            Ok(user_id) => Login::StoringUser { user_id },
            Err(error) => Login::Done(redirect_with(refused_by(error))),
        },
        (Login::StoringUser { .. }, LoginEvent::SessionStored(outcome)) => match outcome {
            Ok(()) => Login::Done(welcome()),
            Err(_) => Login::Done(
                redirect_with(LoginError::UnexpectedError(LoginFault::Session)),
            ),
        },
        _ => state,
    }
}

/// Takes a login one step further: from the state it is in and what the
/// outside world reports, to the state that names what is due next.
pub fn login(state: Login, event: LoginEvent) -> (next: Login)
    ensures
        next == next_login(state, event),
{
    match (state, event) {
        (Login::Idle, LoginEvent::Requested(form)) => Login::Authenticating {
            credentials: Credentials { username: form.username, password: form.password },
        },
        (Login::Authenticating { .. }, LoginEvent::CredentialsValidated(outcome)) => match outcome {
            Ok(user_id) => Login::StoringUser { user_id },
            Err(error) => Login::Done(login_redirect(login_error(error))),
        },
        (Login::StoringUser { .. }, LoginEvent::SessionStored(outcome)) => match outcome {
            Ok(()) => Login::Done(
                LoginReply { status_code: STATUS_SEE_OTHER, location: DASHBOARD_PAGE, error: None },
            ),
            Err(_) => Login::Done(
                login_redirect(LoginError::UnexpectedError(LoginFault::Session)),
            ),
        },
        (state, _) => state,
    }
}

/// What a failed login shows does not depend on why the credentials were
/// turned down.
pub proof fn lemma_login_rejections_look_alike(first: Rejection, second: Rejection)
    ensures
        refused_by(AuthError::InvalidCredentials(first)).text() == refused_by(
            AuthError::InvalidCredentials(second),
        ).text(),
        refused_by(AuthError::InvalidCredentials(first)).status() == refused_by(
            AuthError::InvalidCredentials(second),
        ).status(),
        redirect_with(refused_by(AuthError::InvalidCredentials(first))).location == redirect_with(
            refused_by(AuthError::InvalidCredentials(second)),
        ).location,
{
}

} // verus!
