//! Publishing an issue of the newsletter to every confirmed subscriber.

use crate::authentication::{AuthError, Credentials, Fault, Rejection};
use crate::domain::subscriber_email::{email_rejection, is_email};
use crate::domain::SubscriberEmail;
use crate::routes::{
    DeliveryFailure, StorageFailure, STATUS_INTERNAL_SERVER_ERROR, STATUS_UNAUTHORIZED,
};
use crate::utils::{error_chain, error_chain_fmt};
use base64::{DecodeError, Engine};
use std::string::FromUtf8Error;
use uuid::Uuid;
use vstd::prelude::*;
use vstd::slice::slice_subrange;
use vstd::utf8::{decode_utf8, valid_utf8};

verus! {

/// `base64::DecodeError`, the reason why an input is not base64; nothing is
/// read from it.
#[verifier::external_type_specification]
#[verifier::external_body]
pub struct ExDecodeError(DecodeError);

/// `std::string::FromUtf8Error`, the reason why bytes are not UTF-8; nothing
/// is read from it.
#[verifier::external_type_specification]
#[verifier::external_body]
pub struct ExFromUtf8Error(FromUtf8Error);

/// What the standard base64 alphabet with canonical padding decodes `input`
/// to, if it decodes at all.
pub uninterp spec fn base64_decoded(input: Seq<u8>) -> Option<Seq<u8>>;

/// `Engine::decode` of the engine `general_purpose::STANDARD` decodes its
/// input by that engine's fixed alphabet and padding rule, so whether it
/// succeeds, and with which bytes, depends on the input alone;
/// `base64_decoded` stands for that.
#[verifier::external_body]
fn decode_base64(input: &[u8]) -> (r: Result<Vec<u8>, DecodeError>)
    ensures
        r matches Ok(bytes) ==> base64_decoded(input@) == Some(bytes@),
        r is Err ==> base64_decoded(input@) is None,
{
    base64::engine::general_purpose::STANDARD.decode(input)
}

/// `String::from_utf8` succeeds exactly on valid UTF-8 and then yields the
/// string that those bytes encode.
pub assume_specification[ String::from_utf8 ](vec: Vec<u8>) -> (r: Result<String, FromUtf8Error>)
    ensures
        r is Ok <==> valid_utf8(vec@),
        r matches Ok(text) ==> text@ == decode_utf8(vec@),
;

/// Why a request carries no usable Basic credentials.
#[derive(Clone, Copy, Debug, PartialEq, Eq, Structural)]
pub enum BasicAuthError {
    /// The request has no `Authorization` header.
    MissingHeader,
    /// The header holds a byte that is neither visible ASCII nor a tab.
    UnreadableHeader,
    /// The header does not begin with `Basic `.
    UnsupportedScheme,
    /// What follows the scheme is not base64.
    UndecodablePayload,
    /// The decoded payload is not UTF-8.
    UnreadablePayload,
    /// The decoded payload holds no `:` and so no password.
    MissingPassword,
}

impl BasicAuthError {
    /// What this error says of itself.
    pub open spec fn text(self) -> Seq<char> {
        match self {
            BasicAuthError::MissingHeader => "The Authorization header is missing"@,
            BasicAuthError::UnreadableHeader =>
                "The Authorization header is not a valid UTF-8 string"@,
            BasicAuthError::UnsupportedScheme => "The authorization scheme was not 'Basic'"@,
            BasicAuthError::UndecodablePayload =>
                "Failed to decode the basic credentials from base64"@,
            BasicAuthError::UnreadablePayload => "The Basic credentials is not valid UTF-8"@,
            BasicAuthError::MissingPassword => "A password must be provided in 'Basic' auth"@,
        }
    }

    /// What this error says of itself.
    pub fn message(&self) -> (message: String)
        ensures
            message@ == self.text(),
    {
        match self {
            BasicAuthError::MissingHeader => "The Authorization header is missing".to_owned(),
            BasicAuthError::UnreadableHeader =>
                "The Authorization header is not a valid UTF-8 string".to_owned(),
            BasicAuthError::UnsupportedScheme =>
                "The authorization scheme was not 'Basic'".to_owned(),
            BasicAuthError::UndecodablePayload =>
                "Failed to decode the basic credentials from base64".to_owned(),
            BasicAuthError::UnreadablePayload =>
                "The Basic credentials is not valid UTF-8".to_owned(),
            BasicAuthError::MissingPassword =>
                "A password must be provided in 'Basic' auth".to_owned(),
        }
    }
}

/// A byte that may stand in a header that is read as text: a visible
/// character of ASCII, a space, or a tab.
pub open spec fn is_header_text_byte(byte: u8) -> bool {
    (32 <= byte && byte < 127) || byte == 9
}

/// Every byte of `bytes` may stand in a header that is read as text.
pub open spec fn is_header_text(bytes: Seq<u8>) -> bool {
    forall|i: int| 0 <= i < bytes.len() ==> is_header_text_byte(#[trigger] bytes[i])
}

/// The bytes of `Basic `, which introduce Basic credentials: the five
/// letters in ASCII and a space.
pub open spec fn basic_scheme() -> Seq<u8> {
    seq![66u8, 97u8, 115u8, 105u8, 99u8, 32u8]
}

/// The base64 text that an `Authorization` header carries for the scheme
/// `Basic`.
pub open spec fn payload_of(authorization: Option<Seq<u8>>) -> Result<Seq<u8>, BasicAuthError> {
    match authorization {
        None => Err(BasicAuthError::MissingHeader),
        Some(header) => if !is_header_text(header) {
            Err(BasicAuthError::UnreadableHeader)
        } else if !basic_scheme().is_prefix_of(header) {
            Err(BasicAuthError::UnsupportedScheme)
        } else {
            Ok(header.skip(basic_scheme().len() as int))
        },
    }
}

/// `text` read as `username:password`, split at its first `:`.
pub open spec fn is_split_of(text: Seq<char>, username: Seq<char>, password: Seq<char>) -> bool {
    &&& text == username + seq![':'] + password
    &&& !username.contains(':')
}

/// `credentials` are what the decoded payload `decoded` holds.
pub open spec fn holds_credentials(
    decoded: Seq<u8>,
    r: Result<Credentials, BasicAuthError>,
) -> bool {
    if !valid_utf8(decoded) {
        r == Err::<Credentials, BasicAuthError>(BasicAuthError::UnreadablePayload)
    } else if !decode_utf8(decoded).contains(':') {
        r == Err::<Credentials, BasicAuthError>(BasicAuthError::MissingPassword)
    } else {
        r matches Ok(credentials) && is_split_of(
            decode_utf8(decoded),
            credentials.username@,
            credentials.password@,
        )
    }
}

/// `r` is what the header `authorization` yields: its credentials, or the
/// first reason why it has none.
pub open spec fn is_basic_credentials_of(
    authorization: Option<Seq<u8>>,
    r: Result<Credentials, BasicAuthError>,
) -> bool {
    match payload_of(authorization) {
        Err(error) => r == Err::<Credentials, BasicAuthError>(error),
        Ok(payload) => match base64_decoded(payload) {
            None => r == Err::<Credentials, BasicAuthError>(BasicAuthError::UndecodablePayload),
            Some(decoded) => holds_credentials(decoded, r),
        },
    }
}

/// The bytes of the header, if there is one.
pub open spec fn header_bytes(authorization: Option<&[u8]>) -> Option<Seq<u8>> {
    match authorization {
        Some(header) => Some(header@),
        None => None,
    }
}

/// Reads the username and the password out of the value of the
/// `Authorization` header, `None` standing for a request without one.
pub fn get_basic_credentials(authorization: Option<&[u8]>) -> (r: Result<
    Credentials,
    BasicAuthError,
>)
    ensures
        is_basic_credentials_of(header_bytes(authorization), r),
{
    let payload = match basic_payload(authorization) {
        Ok(payload) => payload,
        Err(error) => {
            return Err(error);
        },
    };
    match decode_base64(payload) {
        Err(_) => Err(BasicAuthError::UndecodablePayload),
        Ok(decoded) => credentials_from_payload(decoded),
    }
}

/// The base64 text that an `Authorization` header carries for the scheme
/// `Basic`.
pub fn basic_payload<'a>(authorization: Option<&'a [u8]>) -> (r: Result<&'a [u8], BasicAuthError>)
    ensures
        r matches Ok(payload) ==> payload_of(header_bytes(authorization)) == Ok::<
            Seq<u8>,
            BasicAuthError,
        >(payload@),
        r matches Err(error) ==> payload_of(header_bytes(authorization)) == Err::<
            Seq<u8>,
            BasicAuthError,
        >(error),
{
    let header = match authorization {
        Some(header) => header,
        None => {
            return Err(BasicAuthError::MissingHeader);
        },
    };
    let mut i: usize = 0;
    while i < header.len()
        invariant
            authorization == Some(header),
            i <= header.len(),
            is_header_text(header@.take(i as int)),
        decreases header.len() - i,
    {
        let byte = header[i];
        if !((32 <= byte && byte < 127) || byte == 9) {
            assert(!is_header_text_byte(header@[i as int]));
            return Err(BasicAuthError::UnreadableHeader);
        }
        assert forall|j: int| 0 <= j < i + 1 implies is_header_text_byte(
            #[trigger] header@.take(i + 1)[j],
        ) by {
            if j < i {
                assert(is_header_text_byte(header@.take(i as int)[j]));
            }
        }
        i += 1;
    }
    assert(header@.take(header@.len() as int) == header@);
    if header.len() >= 6 && header[0] == 66 && header[1] == 97 && header[2] == 115 && header[3]
        == 105 && header[4] == 99 && header[5] == 32 {
        assert(basic_scheme() =~= header@.subrange(0, 6));
        let payload = slice_subrange(header, 6, header.len());
        assert(payload@ =~= header@.skip(6));
        Ok(payload)
    } else {
        assert(!basic_scheme().is_prefix_of(header@)) by {
            if basic_scheme().is_prefix_of(header@) {
                assert(basic_scheme() == header@.subrange(0, 6));
                assert(forall|j: int| 0 <= j < 6 ==> header@[j] == header@.subrange(0, 6)[j]);
            }
        }
        Err(BasicAuthError::UnsupportedScheme)
    }
}

/// The credentials that a decoded payload holds.
pub fn credentials_from_payload(decoded: Vec<u8>) -> (r: Result<Credentials, BasicAuthError>)
    ensures
        holds_credentials(decoded@, r),
{
    match String::from_utf8(decoded) {
        Err(_) => Err(BasicAuthError::UnreadablePayload),
        Ok(text) => split_credentials(text.as_str()),
    }
}

/// Splits `username:password` at its first `:`.
pub fn split_credentials(text: &str) -> (r: Result<Credentials, BasicAuthError>)
    ensures
        r is Ok <==> text@.contains(':'),
        r matches Ok(credentials) ==> is_split_of(text@, credentials.username@, credentials.password@),
        r matches Err(error) ==> error == BasicAuthError::MissingPassword,
{
    let length = text.unicode_len();
    let mut position: usize = 0;
    let mut found: bool = false;
    for c in chars: text.chars()
        invariant
            chars.seq() == text@,
            length == text@.len(),
            position <= chars.index(),
            !found ==> position == chars.index(),
            found ==> position < chars.index() && text@[position as int] == ':',
            forall|j: int| 0 <= j < position ==> text@[j] != ':',
    {
        if !found {
            if c == ':' {
                found = true;
            } else {
                position += 1;
            }
        }
    }
    if found {
        let username = text.substring_char(0, position).to_owned();
        let password = text.substring_char(position + 1, length).to_owned();
        proof {
            assert(text@ =~= username@ + seq![':'] + password@);
            assert(!username@.contains(':')) by {
                if username@.contains(':') {
                    let j = choose|j: int| 0 <= j < username@.len() && username@[j] == ':';
                    assert(text@[j] == ':');
                }
            }
        }
        Ok(Credentials { username, password })
    } else {
        assert(!text@.contains(':')) by {
            if text@.contains(':') {
                let j = choose|j: int| 0 <= j < text@.len() && text@[j] == ':';
                assert(text@[j] != ':');
            }
        }
        Err(BasicAuthError::MissingPassword)
    }
}

/// An issue of the newsletter, as a request to publish it states it.
pub struct PublishNewsletterRequestBody {
    pub title: String,
    pub content: PublishNewsletterRequestBodyContent,
}

/// The two renderings of an issue.
pub struct PublishNewsletterRequestBodyContent {
    pub html: String,
    pub text: String,
}

/// Why a request to publish was not authenticated.
#[derive(Clone, Copy, Debug, PartialEq, Eq, Structural)]
pub enum AuthenticationFailure {
    /// The request carries no usable Basic credentials.
    Header(BasicAuthError),
    /// The credentials were turned down.
    Credentials(Rejection),
}

/// What kept an authenticated request to publish from being carried out.
#[derive(Clone, Copy, Debug, PartialEq, Eq, Structural)]
pub enum PublishFault {
    /// The credential check did not reach a verdict.
    Credentials(Fault),
    /// The confirmed subscribers could not be loaded.
    Subscribers,
    /// The issue could not be delivered to a subscriber.
    Delivery,
}

/// The two ways a request to publish fails.
#[derive(Clone, Copy, Debug, PartialEq, Eq, Structural)]
pub enum PublishNewsletterError {
    AuthError(AuthenticationFailure),
    UnexpectedError(PublishFault),
}

/// The challenge that a reply to an unauthenticated request carries in its
/// `WWW-Authenticate` header.
pub const PUBLISH_CHALLENGE: &'static str = "Basic realm=\"publish_newsletter\"";

/// What a failed request to publish is answered with.
#[derive(Clone, Copy, Debug)]
pub struct ErrorResponse {
    pub status_code: u16,
    /// The value of the header `WWW-Authenticate`, if the reply has one.
    pub www_authenticate: Option<&'static str>,
}

impl AuthenticationFailure {
    /// What this failure says of itself.
    pub open spec fn text(self) -> Seq<char> {
        match self {
            AuthenticationFailure::Header(error) => error.text(),
            AuthenticationFailure::Credentials(rejection) => rejection.text(),
        }
    }

    /// What this failure says of itself.
    pub fn message(&self) -> (message: String)
        ensures
            message@ == self.text(),
    {
        match self {
            AuthenticationFailure::Header(error) => error.message(),
            AuthenticationFailure::Credentials(rejection) => rejection.message(),
        }
    }
}

impl PublishFault {
    /// What this fault says of itself.
    pub open spec fn text(self) -> Seq<char> {
        match self {
            PublishFault::Credentials(fault) => fault.text(),
            PublishFault::Subscribers => "Failed to load the confirmed subscribers"@,
            PublishFault::Delivery => "Failed to send newsletter"@,
        }
    }

    /// What this fault says of itself.
    pub fn message(&self) -> (message: String)
        ensures
            message@ == self.text(),
    {
        match self {
            PublishFault::Credentials(fault) => fault.message(),
            PublishFault::Subscribers => "Failed to load the confirmed subscribers".to_owned(),
            PublishFault::Delivery => "Failed to send newsletter".to_owned(),
        }
    }
}

impl PublishNewsletterError {
    /// How this error shows to the client as a status.
    pub open spec fn status(self) -> u16 {
        match self {
            PublishNewsletterError::UnexpectedError(_) => STATUS_INTERNAL_SERVER_ERROR,
            PublishNewsletterError::AuthError(_) => STATUS_UNAUTHORIZED,
        }
    }

    /// The reply that answers this error: to a failed authentication the
    /// challenge, whatever made it fail.
    pub open spec fn response(self) -> ErrorResponse {
        match self {
            PublishNewsletterError::UnexpectedError(_) => ErrorResponse {
                status_code: STATUS_INTERNAL_SERVER_ERROR,
                www_authenticate: None,
            },
            PublishNewsletterError::AuthError(_) => ErrorResponse {
                status_code: STATUS_UNAUTHORIZED,
                www_authenticate: Some(PUBLISH_CHALLENGE),
            },
        }
    }

    /// What this error says of itself: of a failed authentication always the
    /// same, of a fault what the fault says.
    pub open spec fn text(self) -> Seq<char> {
        match self {
            PublishNewsletterError::AuthError(_) => "Authentication failed"@,
            PublishNewsletterError::UnexpectedError(fault) => fault.text(),
        }
    }

    /// What caused this error, as far as it does not say so itself.
    pub open spec fn causes(self) -> Seq<Seq<char>> {
        match self {
            PublishNewsletterError::AuthError(failure) => seq![failure.text()],
            PublishNewsletterError::UnexpectedError(_) => seq![],
        }
    }

    /// The status that this error is answered with: it tells a failed
    /// authentication from any other failure, and nothing more.
    pub fn status_code(&self) -> (code: u16)
        ensures
            code == self.status(),
    {
        match self {
            PublishNewsletterError::UnexpectedError(_) => STATUS_INTERNAL_SERVER_ERROR,
            PublishNewsletterError::AuthError(_) => STATUS_UNAUTHORIZED,
        }
    }

    /// The reply that this error is answered with. A failed authentication
    /// is challenged, whatever made it fail.
    pub fn error_response(&self) -> (response: ErrorResponse)
        ensures
            response == self.response(),
    {
        match self {
            PublishNewsletterError::UnexpectedError(_) => ErrorResponse {
                status_code: STATUS_INTERNAL_SERVER_ERROR,
                www_authenticate: None,
            },
            PublishNewsletterError::AuthError(_) => ErrorResponse {
                status_code: STATUS_UNAUTHORIZED,
                www_authenticate: Some(PUBLISH_CHALLENGE),
            },
        }
    }

    /// What this error says of itself.
    pub fn message(&self) -> (message: String)
        ensures
            message@ == self.text(),
    {
        match self {
            PublishNewsletterError::AuthError(_) => "Authentication failed".to_owned(),
            PublishNewsletterError::UnexpectedError(fault) => fault.message(),
        }
    }

    /// The report on this error and its cause, for the log.
    pub fn report(&self) -> (report: String)
        ensures
            report@ == error_chain(self.text(), self.causes()),
    {
        let mut causes: Vec<String> = Vec::new();
        match self {
            PublishNewsletterError::AuthError(failure) => {
                causes.push(failure.message());
            },
            PublishNewsletterError::UnexpectedError(_) => {},
        }
        assert(causes.deep_view() =~= self.causes());
        error_chain_fmt(self.message().as_str(), &causes)
    }
}

/// The error that a failed credential check makes of a request to publish.
pub open spec fn rejected_by(error: AuthError) -> PublishNewsletterError {
    match error {
        AuthError::InvalidCredentials(rejection) => PublishNewsletterError::AuthError(
            AuthenticationFailure::Credentials(rejection),
        ),
        AuthError::UnexpectedError(fault) => PublishNewsletterError::UnexpectedError(
            PublishFault::Credentials(fault),
        ),
    }
}

/// A subscriber whose subscription is confirmed.
pub struct ConfirmedSubscriber {
    pub email: SubscriberEmail,
}

/// `parsed` is what the stored address `row` is read as: a subscriber, or
/// the report that the address is none.
pub open spec fn is_parsed_row(row: Seq<char>, parsed: Result<ConfirmedSubscriber, String>) -> bool {
    if is_email(row) {
        parsed matches Ok(subscriber) && subscriber.email@ == row
    } else {
        parsed matches Err(message) && message@ == email_rejection(row)
    }
}

/// `parsed` holds, row by row, what the stored addresses `rows` are read as.
pub open spec fn are_parsed_rows(
    rows: Seq<String>,
    parsed: Seq<Result<ConfirmedSubscriber, String>>,
) -> bool {
    &&& parsed.len() == rows.len()
    &&& forall|i: int| 0 <= i < rows.len() ==> is_parsed_row(rows[i]@, #[trigger] parsed[i])
}

/// Reads the stored addresses of the confirmed subscribers. An address that
/// is none any more is reported in its place and holds up no other.
pub fn get_confirmed_subscribers(rows: Vec<String>) -> (parsed: Vec<
    Result<ConfirmedSubscriber, String>,
>)
    ensures
        are_parsed_rows(rows@, parsed@),
{
    let mut parsed: Vec<Result<ConfirmedSubscriber, String>> = Vec::new();
    for row in stored: rows.into_iter()
        invariant
            stored.seq() == rows@,
            parsed@.len() == stored.index(),
            forall|i: int| 0 <= i < stored.index() ==> is_parsed_row(rows@[i]@, #[trigger] parsed@[i]),
    {
        let entry = match SubscriberEmail::parse(row) {
            Ok(email) => Ok(ConfirmedSubscriber { email }),
            Err(message) => Err(message),
        };
        parsed.push(entry);
    }
    parsed
}

/// The position of the first subscriber at or after `from` that the issue
/// can be delivered to, or the length of `subscribers` if there is none.
pub open spec fn next_deliverable(
    subscribers: Seq<Result<ConfirmedSubscriber, String>>,
    from: int,
) -> int
    decreases subscribers.len() - from,
{
    if from < 0 || from >= subscribers.len() {
        subscribers.len() as int
    } else if subscribers[from] is Ok {
        from
    } else {
        next_deliverable(subscribers, from + 1)
    }
}

/// The progress of one request to publish. Each state but the first and the
/// last names the outside work that is due.
pub enum Publication {
    /// No request has come in.
    Idle,
    /// Due: the record for `credentials.username` is looked up and the
    /// credentials are validated against it.
    Authenticating { credentials: Credentials, issue: PublishNewsletterRequestBody },
    /// Due: the stored addresses of the confirmed subscribers are loaded.
    LoadingSubscribers { issue: PublishNewsletterRequestBody },
    /// Due: `issue` is sent to the subscriber at `next`. Every subscriber
    /// before `next` that has a valid address has been served.
    Sending {
        issue: PublishNewsletterRequestBody,
        subscribers: Vec<Result<ConfirmedSubscriber, String>>,
        next: usize,
    },
    /// The request is answered: with success once every delivery has
    /// succeeded, else with the first failure.
    Done(Result<(), PublishNewsletterError>),
}

/// What the outside world reports to a request to publish.
pub enum PublicationEvent {
    /// The request came in, with the value of its `Authorization` header if
    /// it has one.
    Requested { authorization: Option<Vec<u8>>, issue: PublishNewsletterRequestBody },
    /// The credentials were validated.
    CredentialsValidated(Result<Uuid, AuthError>),
    /// The stored addresses of the confirmed subscribers were loaded.
    SubscribersLoaded(Result<Vec<String>, StorageFailure>),
    /// The email that was due was handed to the sender.
    EmailSent(Result<(), DeliveryFailure>),
}

impl Publication {
    /// A delivery is due only to a subscriber who exists and has a valid
    /// address.
    pub open spec fn wf(self) -> bool {
        self matches Publication::Sending { subscribers, next, .. } ==> next < subscribers@.len()
            && subscribers@[next as int] is Ok
    }

    /// The subscriber that the issue is due to.
    pub fn recipient(&self) -> (recipient: Option<&ConfirmedSubscriber>)
        ensures
            match *self {
                Publication::Sending { subscribers, next, .. } => if next < subscribers@.len() {
                    match subscribers@[next as int] {
                        Ok(subscriber) => recipient == Some(&subscriber),
                        Err(_) => recipient is None,
                    }
                } else {
                    recipient is None
                },
                _ => recipient is None,
            },
    {
        match self {
            Publication::Sending { subscribers, next, .. } => {
                if *next < subscribers.len() {
                    match &subscribers[*next] {
                        Ok(subscriber) => Some(subscriber),
                        Err(_) => None,
                    }
                } else {
                    None
                }
            },
            _ => None,
        }
    }
}

/// The state after the deliveries up to `served` are done: the next
/// delivery, or success when none is left.
pub open spec fn delivery_from(
    issue: PublishNewsletterRequestBody,
    subscribers: Vec<Result<ConfirmedSubscriber, String>>,
    served: int,
) -> Publication {
    let next = next_deliverable(subscribers@, served);
    if next < subscribers@.len() {
        Publication::Sending { issue, subscribers, next: next as usize }
    } else {
        Publication::Done(Ok(()))
    }
}

/// `next` is the state that follows `state` on `event`. An event that
/// `state` does not wait for leaves it as it is.
pub open spec fn is_next_publication(
    state: Publication,
    event: PublicationEvent,
    next: Publication,
) -> bool {
    match (state, event) {
        (Publication::Idle, PublicationEvent::Requested { authorization, issue }) => {
            let header = match authorization {
                Some(bytes) => Some(bytes@),
                None => None,
            };
            match next {
                Publication::Authenticating { credentials, issue: carried } => carried == issue
                    && is_basic_credentials_of(header, Ok(credentials)),
                Publication::Done(Err(PublishNewsletterError::AuthError(
                    AuthenticationFailure::Header(error),
                ))) => is_basic_credentials_of(header, Err(error)),
                _ => false,
            }
        },
        (
            Publication::Authenticating { issue, .. },
            PublicationEvent::CredentialsValidated(outcome),
        ) => match outcome {
            Ok(_) => next == Publication::LoadingSubscribers { issue },
            Err(error) => next == Publication::Done(Err(rejected_by(error))),
        },
        (Publication::LoadingSubscribers { issue }, PublicationEvent::SubscribersLoaded(loaded)) => {
            match loaded {
                Err(_) => next == Publication::Done(
                    Err(PublishNewsletterError::UnexpectedError(PublishFault::Subscribers)),
                ),
                Ok(rows) => exists|subscribers: Vec<Result<ConfirmedSubscriber, String>>|
                    #![trigger are_parsed_rows(rows@, subscribers@)]
                    are_parsed_rows(rows@, subscribers@) && next == delivery_from(
                        issue,
                        subscribers,
                        0,
                    ),
            }
        },
        (
            Publication::Sending { issue, subscribers, next: served },
            PublicationEvent::EmailSent(outcome),
        ) => match outcome {
            Err(_) => next == Publication::Done(
                Err(PublishNewsletterError::UnexpectedError(PublishFault::Delivery)),
            ),
            Ok(()) => next == delivery_from(issue, subscribers, served + 1),
        },
        _ => next == state,
    }
}

/// Takes a request to publish one step further: from the state it is in and
/// what the outside world reports, to the state that names what is due next.
pub fn publish_newsletter(state: Publication, event: PublicationEvent) -> (next: Publication)
    ensures
        is_next_publication(state, event, next),
        state.wf() ==> next.wf(),
{
    match (state, event) {
        (Publication::Idle, PublicationEvent::Requested { authorization, issue }) => {
            let header = match &authorization {
                Some(bytes) => Some(bytes.as_slice()),
                None => None,
            };
            match get_basic_credentials(header) {
                Ok(credentials) => Publication::Authenticating { credentials, issue },
                Err(error) => Publication::Done(
                    Err(PublishNewsletterError::AuthError(AuthenticationFailure::Header(error))),
                ),
            }
        },
        (
            Publication::Authenticating { issue, .. },
            PublicationEvent::CredentialsValidated(outcome),
        ) => match outcome {
            Ok(_) => Publication::LoadingSubscribers { issue },
            Err(error) => Publication::Done(Err(publish_error(error))),
        },
        (Publication::LoadingSubscribers { issue }, PublicationEvent::SubscribersLoaded(loaded)) => {
            match loaded {
                Err(_) => Publication::Done(
                    Err(PublishNewsletterError::UnexpectedError(PublishFault::Subscribers)),
                ),
                Ok(rows) => {
                    let subscribers = get_confirmed_subscribers(rows);
                    deliver_from(issue, subscribers, 0)
                },
            }
        },
        (
            Publication::Sending { issue, subscribers, next: served },
            PublicationEvent::EmailSent(outcome),
        ) => match outcome {
            Err(_) => Publication::Done(
                Err(PublishNewsletterError::UnexpectedError(PublishFault::Delivery)),
            ),
            Ok(()) => if served < subscribers.len() {
                deliver_from(issue, subscribers, served + 1)
            } else {
                assert(next_deliverable(subscribers@, served + 1) == subscribers@.len());
                Publication::Done(Ok(()))
            },
        },
        (state, _) => state,
    }
}

/// The error that a failed credential check makes of a request to publish:
/// a rejection fails the authentication, a fault is unexpected.
pub fn publish_error(error: AuthError) -> (r: PublishNewsletterError)
    ensures
        r == rejected_by(error),
{
    match error {
        AuthError::InvalidCredentials(rejection) => PublishNewsletterError::AuthError(
            AuthenticationFailure::Credentials(rejection),
        ),
        AuthError::UnexpectedError(fault) => PublishNewsletterError::UnexpectedError(
            PublishFault::Credentials(fault),
        ),
    }
}

/// Finds the first subscriber at or after `from` that the issue can be
/// delivered to.
fn deliver_from(
    issue: PublishNewsletterRequestBody,
    subscribers: Vec<Result<ConfirmedSubscriber, String>>,
    from: usize,
) -> (next: Publication)
    requires
        from <= subscribers@.len(),
    ensures
        next == delivery_from(issue, subscribers, from as int),
        next.wf(),
{
    let mut position: usize = from;
    while position < subscribers.len() && subscribers[position].is_err()
        invariant
            from <= position <= subscribers@.len(),
            next_deliverable(subscribers@, from as int) == next_deliverable(
                subscribers@,
                position as int,
            ),
        decreases subscribers@.len() - position,
    {
        position += 1;
    }
    if position < subscribers.len() {
        Publication::Sending { issue, subscribers, next: position }
    } else {
        Publication::Done(Ok(()))
    }
}

/// What `next_deliverable` finds: a subscriber with a valid address at or
/// after `from`, with none such in between, or the end.
pub proof fn lemma_next_deliverable(
    subscribers: Seq<Result<ConfirmedSubscriber, String>>,
    from: int,
)
    requires
        0 <= from <= subscribers.len(),
    ensures
        from <= next_deliverable(subscribers, from) <= subscribers.len(),
        next_deliverable(subscribers, from) < subscribers.len() ==> subscribers[next_deliverable(
            subscribers,
            from,
        )] is Ok,
        forall|i: int|
            from <= i < next_deliverable(subscribers, from) ==> (#[trigger] subscribers[i]) is Err,
    decreases subscribers.len() - from,
{
    if from < subscribers.len() && subscribers[from] is Err {
        lemma_next_deliverable(subscribers, from + 1);
    }
}

/// Every step leaves a well-formed state well-formed: a delivery is never
/// due to a subscriber who does not exist or has no valid address.
pub proof fn lemma_publication_stays_well_formed(
    state: Publication,
    event: PublicationEvent,
    next: Publication,
)
    requires
        state.wf(),
        is_next_publication(state, event, next),
    ensures
        next.wf(),
{
    match (state, event) {
        (Publication::LoadingSubscribers { issue }, PublicationEvent::SubscribersLoaded(Ok(rows))) => {
            let subscribers = choose|subscribers: Vec<Result<ConfirmedSubscriber, String>>|
                #![trigger are_parsed_rows(rows@, subscribers@)]
                are_parsed_rows(rows@, subscribers@) && next == delivery_from(
                    issue,
                    subscribers,
                    0,
                );
            assert(subscribers.len() == subscribers@.len());
            lemma_next_deliverable(subscribers@, 0);
        },
        (
            Publication::Sending { subscribers, next: served, .. },
            PublicationEvent::EmailSent(Ok(())),
        ) => {
            assert(subscribers.len() == subscribers@.len());
            lemma_next_deliverable(subscribers@, served + 1);
        },
        _ => {},
    }
}

/// Where no confirmed subscriber has a valid address, and so where no
/// subscriber is confirmed at all, the request succeeds and no email is ever
/// due.
pub proof fn lemma_nothing_is_sent_without_recipient(
    issue: PublishNewsletterRequestBody,
    subscribers: Vec<Result<ConfirmedSubscriber, String>>,
)
    requires
        forall|i: int| 0 <= i < subscribers@.len() ==> (#[trigger] subscribers@[i]) is Err,
    ensures
        delivery_from(issue, subscribers, 0) == Publication::Done(Ok(())),
{
    lemma_next_deliverable(subscribers@, 0);
}

/// An invalid stored address holds up no other: after a delivery the issue
/// is due to the next subscriber with a valid address, whatever lies in
/// between.
pub proof fn lemma_invalid_addresses_are_skipped(
    issue: PublishNewsletterRequestBody,
    subscribers: Vec<Result<ConfirmedSubscriber, String>>,
    served: int,
    valid: int,
)
    requires
        0 <= served < valid < subscribers@.len(),
        subscribers@[valid] is Ok,
        forall|i: int| served < i < valid ==> (#[trigger] subscribers@[i]) is Err,
    ensures
        delivery_from(issue, subscribers, served + 1) == (Publication::Sending {
            issue,
            subscribers,
            next: valid as usize,
        }),
{
    lemma_next_deliverable(subscribers@, served + 1);
    let found = next_deliverable(subscribers@, served + 1);
    if found < valid {
        assert(subscribers@[found] is Err);
    }
}

/// The first delivery that fails ends the request with that failure: no
/// subscriber after it is served.
pub proof fn lemma_delivery_failure_aborts(
    issue: PublishNewsletterRequestBody,
    subscribers: Vec<Result<ConfirmedSubscriber, String>>,
    served: usize,
    next: Publication,
)
    requires
        is_next_publication(
            Publication::Sending { issue, subscribers, next: served },
            PublicationEvent::EmailSent(Err(DeliveryFailure)),
            next,
        ),
    ensures
        next == Publication::Done(
            Err(PublishNewsletterError::UnexpectedError(PublishFault::Delivery)),
        ),
        next matches Publication::Done(Err(error)) && error.status()
            == STATUS_INTERNAL_SERVER_ERROR,
{
}

/// A failed authentication is answered in one way only, whether the header
/// was missing or malformed, the username unknown or the password wrong.
pub proof fn lemma_authentication_failures_look_alike(
    first: AuthenticationFailure,
    second: AuthenticationFailure,
)
    ensures
        PublishNewsletterError::AuthError(first).response() == PublishNewsletterError::AuthError(
            second,
        ).response(),
        PublishNewsletterError::AuthError(first).response().status_code == STATUS_UNAUTHORIZED,
        PublishNewsletterError::AuthError(first).response().www_authenticate == Some(
            PUBLISH_CHALLENGE,
        ),
        PublishNewsletterError::AuthError(first).text() == PublishNewsletterError::AuthError(
            second,
        ).text(),
{
}

/// A request whose credentials are turned down ends unauthorized, and one
/// without usable credentials ends so before any credential is looked up.
pub proof fn lemma_rejected_request_is_unauthorized(
    state: Publication,
    rejection: Rejection,
    next: Publication,
)
    requires
        state is Authenticating,
        is_next_publication(
            state,
            PublicationEvent::CredentialsValidated(
                Err(AuthError::InvalidCredentials(rejection)),
            ),
            next,
        ),
    ensures
        next == Publication::Done(
            Err(PublishNewsletterError::AuthError(AuthenticationFailure::Credentials(rejection))),
        ),
        next matches Publication::Done(Err(error)) && error.status() == STATUS_UNAUTHORIZED,
{
}

/// Subscribers are loaded only for a request whose credentials were
/// accepted, and an issue is sent only after the subscribers were loaded.
pub proof fn lemma_publishing_needs_authentication(
    state: Publication,
    event: PublicationEvent,
    next: Publication,
)
    requires
        is_next_publication(state, event, next),
    ensures
        next is LoadingSubscribers && !(state is LoadingSubscribers) ==> state is Authenticating
            && event matches PublicationEvent::CredentialsValidated(Ok(_)),
        next is Sending && !(state is Sending) ==> state is LoadingSubscribers
            && event matches PublicationEvent::SubscribersLoaded(Ok(_)),
{
}

} // verus!
