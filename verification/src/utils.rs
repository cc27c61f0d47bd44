//! Helpers that several endpoints share.

use crate::routes::STATUS_SEE_OTHER;
use uuid::Uuid;
use vstd::prelude::*;
use vstd::string::StringExecFns;

verus! {

/// The report on an error that says `message` of itself and was caused by
/// `causes`, the nearest cause first: the message, an empty line, and for
/// each cause a heading line and the indented cause.
pub open spec fn error_chain(message: Seq<char>, causes: Seq<Seq<char>>) -> Seq<char>
    decreases causes.len(),
{
    if causes.len() == 0 {
        message + "\n\n"@
    } else {
        error_chain(message, causes.drop_last()) + "Caused by:\n\t"@ + causes.last() + "\n"@
    }
}

/// Writes the report on an error and the chain of its causes.
pub fn error_chain_fmt(message: &str, causes: &Vec<String>) -> (report: String)
    ensures
        report@ == error_chain(message@, causes.deep_view()),
{
    let mut report = message.to_owned();
    report.append("\n\n");
    let mut i: usize = 0;
    while i < causes.len()
        invariant
            i <= causes.len(),
            report@ == error_chain(message@, causes.deep_view().take(i as int)),
        decreases causes.len() - i,
    {
        report.append("Caused by:\n\t");
        report.append(causes[i].as_str());
        report.append("\n");
        proof {
            assert(causes.deep_view().take(i + 1).drop_last() == causes.deep_view().take(i as int));
            assert(causes.deep_view().take(i + 1).last() == causes@[i as int]@);
        }
        i += 1;
    }
    assert(causes.deep_view().take(causes@.len() as int) == causes.deep_view());
    report
}

/// The session store did not carry out what it was asked to.
#[derive(Clone, Copy, Debug, PartialEq, Eq, Structural)]
pub struct SessionFailure;

/// A reply that sends the client to another page of the service.
#[derive(Clone, Copy, Debug)]
pub struct Redirect {
    pub status_code: u16,
    pub location: &'static str,
}

/// Where a client is sent that has to log in first.
pub const LOGIN_PAGE: &'static str = "/login";

/// The reply to a request whose session yields `user_id`.
pub open spec fn redirect_for(user_id: Result<Option<Uuid>, SessionFailure>) -> Result<
    Option<Redirect>,
    SessionFailure,
> {
    match user_id {
        Err(failure) => Err(failure),
        Ok(None) => Ok(Some(Redirect { status_code: STATUS_SEE_OTHER, location: LOGIN_PAGE })),
        Ok(Some(_)) => Ok(None),
    }
}

/// Sends a client without a user in its session to the login page, and lets
/// any other pass. `user_id` is what the session gave for its user.
pub fn get_redirect_if_session_without_user_id(
    user_id: Result<Option<Uuid>, SessionFailure>,
) -> (r: Result<Option<Redirect>, SessionFailure>)
    ensures
        r == redirect_for(user_id),
{
    match user_id {
        Err(failure) => Err(failure),
        Ok(None) => Ok(Some(Redirect { status_code: STATUS_SEE_OTHER, location: LOGIN_PAGE })),
        Ok(Some(_)) => Ok(None),
    }
}

} // verus!
